use tg_exporter::auth::{
    begin_login, login, LoginAction, LoginError, LoginEvent, LoginState, LoginStep,
};
use tg_exporter::config::{Config, EnvValues};

fn login_config() -> Config {
    Config::from_env(EnvValues {
        api_id: None,
        api_hash: "hash".to_string(),
        source_chat_id: 1,
        target_chat_id: None,
        export_hashtags: String::new(),
        session_path: Some("state/me.session".to_string()),
        media_path: None,
        sleep_duration: None,
    })
}

fn failed(cause: &str) -> LoginEvent {
    LoginEvent::Failed { cause: cause.to_string() }
}

fn failure(step: LoginStep, cause: &str) -> LoginAction {
    LoginAction::Fail(LoginError { step, cause: cause.to_string() })
}

/// Reports `events` one by one and collects the steps that were named.
fn run_login(state: LoginState, events: Vec<LoginEvent>) -> (LoginState, Vec<LoginAction>) {
    let config = login_config();
    let mut state = state;
    let mut actions = Vec::new();
    for event in events {
        let (next, action) = login(state, &config, event);
        state = next;
        actions.push(action);
    }
    (state, actions)
}

fn password_prompts(actions: &[LoginAction]) -> usize {
    actions.iter().filter(|a| matches!(a, LoginAction::PromptPassword { .. })).count()
}

#[test]
fn login_begins_with_the_session_check() {
    assert_eq!(begin_login(), (LoginState::CheckingSession, LoginAction::CheckAuthorized));
}

#[test]
fn authorized_session_needs_nothing_more() {
    let (state, actions) = run_login(begin_login().0, vec![LoginEvent::Authorized(true)]);
    assert_eq!(state, LoginState::Authenticated);
    assert_eq!(actions, vec![LoginAction::Done]);
}

#[test]
fn fresh_login_without_password() {
    let (state, actions) = run_login(
        begin_login().0,
        vec![
            LoginEvent::Authorized(false),
            LoginEvent::Phone(" +15550100 \n".to_string()),
            LoginEvent::CodeSent,
            LoginEvent::Code,
            LoginEvent::Accepted,
            LoginEvent::SessionSaved,
        ],
    );
    assert_eq!(state, LoginState::Authenticated);
    assert_eq!(
        actions,
        vec![
            LoginAction::PromptPhone { message: "Enter your phone number: ".to_string() },
            LoginAction::RequestLoginCode { phone: "+15550100".to_string() },
            LoginAction::PromptCode { message: "Enter the code you received: ".to_string() },
            LoginAction::SignIn,
            LoginAction::SaveSession { path: "state/me.session".to_string() },
            LoginAction::Done,
        ]
    );
}

#[test]
fn phone_is_trimmed_of_all_whitespace_around_it() {
    let (state, action) =
        login(LoginState::AwaitingPhone, &login_config(), LoginEvent::Phone("\t 49 170 \r\n".to_string()));
    assert_eq!(state, LoginState::RequestingCode);
    assert_eq!(action, LoginAction::RequestLoginCode { phone: "49 170".to_string() });
}

#[test]
fn password_accepted_at_first_try() {
    let (state, actions) = run_login(
        LoginState::SigningIn,
        vec![
            LoginEvent::PasswordRequired { hint: Some("pet".to_string()) },
            LoginEvent::Password,
            LoginEvent::Accepted,
            LoginEvent::SessionSaved,
        ],
    );
    assert_eq!(state, LoginState::Authenticated);
    assert_eq!(
        actions,
        vec![
            LoginAction::PromptPassword {
                message: "[3 / 3 tries left] Enter the password (hint pet): ".to_string()
            },
            LoginAction::CheckPassword,
            LoginAction::SaveSession { path: "state/me.session".to_string() },
            LoginAction::Done,
        ]
    );
}

#[test]
fn password_accepted_at_third_try() {
    let (state, actions) = run_login(
        LoginState::SigningIn,
        vec![
            LoginEvent::PasswordRequired { hint: None },
            LoginEvent::Password,
            failed("wrong"),
            LoginEvent::Password,
            failed("wrong again"),
            LoginEvent::Password,
            LoginEvent::Accepted,
        ],
    );
    assert_eq!(state, LoginState::SavingSession);
    assert_eq!(password_prompts(&actions), 3);
    assert_eq!(
        actions[6],
        LoginAction::SaveSession { path: "state/me.session".to_string() }
    );
}

#[test]
fn three_failed_passwords_end_the_login() {
    let (state, actions) = run_login(
        LoginState::SigningIn,
        vec![
            LoginEvent::PasswordRequired { hint: None },
            LoginEvent::Password,
            failed("first"),
            LoginEvent::Password,
            failed("second"),
            LoginEvent::Password,
            failed("third"),
        ],
    );
    assert_eq!(state, LoginState::Failed);
    assert_eq!(
        actions,
        vec![
            LoginAction::PromptPassword {
                message: "[3 / 3 tries left] Enter the password (hint None): ".to_string()
            },
            LoginAction::CheckPassword,
            LoginAction::PromptPassword {
                message: "[2 / 3 tries left] Enter the password (hint None): ".to_string()
            },
            LoginAction::CheckPassword,
            LoginAction::PromptPassword {
                message: "[1 / 3 tries left] Enter the password (hint None): ".to_string()
            },
            LoginAction::CheckPassword,
            failure(LoginStep::CheckPassword, "third"),
        ]
    );
}

#[test]
fn no_fourth_prompt_after_three_failures() {
    let (state, actions) = run_login(
        LoginState::SigningIn,
        vec![
            LoginEvent::PasswordRequired { hint: None },
            LoginEvent::Password,
            failed("1"),
            LoginEvent::Password,
            failed("2"),
            LoginEvent::Password,
            failed("3"),
            LoginEvent::Password,
            failed("4"),
            LoginEvent::PasswordRequired { hint: None },
            LoginEvent::Accepted,
        ],
    );
    assert_eq!(state, LoginState::Failed);
    assert_eq!(password_prompts(&actions), 3);
    assert_eq!(actions[7..], vec![LoginAction::Stop; 4][..]);
}

#[test]
fn counter_beyond_the_budget_fails_at_once() {
    let state = LoginState::CheckingPassword { hint: None, failed: 200 };
    let (state, action) = login(state, &login_config(), failed("no"));
    assert_eq!(state, LoginState::Failed);
    assert_eq!(action, failure(LoginStep::CheckPassword, "no"));
    let state = LoginState::CheckingPassword { hint: None, failed: 255 };
    assert_eq!(login(state, &login_config(), failed("no")).0, LoginState::Failed);
}

#[test]
fn every_step_reports_its_own_failure() {
    let cases = vec![
        (LoginState::CheckingSession, LoginStep::CheckAuthorized),
        (LoginState::AwaitingPhone, LoginStep::ReadPhone),
        (LoginState::RequestingCode, LoginStep::RequestLoginCode),
        (LoginState::AwaitingCode, LoginStep::ReadCode),
        (LoginState::SigningIn, LoginStep::SignIn),
        (LoginState::AwaitingPassword { hint: None, failed: 0 }, LoginStep::ReadPassword),
        (LoginState::SigningOut { cause: "disk full".to_string() }, LoginStep::SignOut),
    ];
    for (state, step) in cases {
        let (next, action) = login(state, &login_config(), failed("boom"));
        assert_eq!(next, LoginState::Failed);
        assert_eq!(action, failure(step, "boom"));
    }
}

#[test]
fn unsaved_session_is_signed_out_first() {
    let (state, actions) = run_login(
        LoginState::SavingSession,
        vec![failed("disk full"), LoginEvent::SignedOut],
    );
    assert_eq!(state, LoginState::Failed);
    assert_eq!(
        actions,
        vec![LoginAction::SignOutDisconnect, failure(LoginStep::SaveSession, "disk full")]
    );
}

#[test]
fn failed_sign_out_is_reported_in_place_of_the_save() {
    let (state, actions) = run_login(
        LoginState::SavingSession,
        vec![failed("disk full"), failed("network down")],
    );
    assert_eq!(state, LoginState::Failed);
    assert_eq!(actions[1], failure(LoginStep::SignOut, "network down"));
}

#[test]
fn report_that_does_not_fit_fails_the_login() {
    let (state, action) = login(LoginState::CheckingSession, &login_config(), LoginEvent::Code);
    assert_eq!(state, LoginState::Failed);
    assert_eq!(action, failure(LoginStep::Unexpected, ""));
    let (state, action) = login(LoginState::AwaitingCode, &login_config(), LoginEvent::Accepted);
    assert_eq!(state, LoginState::Failed);
    assert_eq!(action, failure(LoginStep::Unexpected, ""));
    let (state, _) = login(LoginState::SavingSession, &login_config(), LoginEvent::Authorized(true));
    assert_eq!(state, LoginState::Failed);
}

#[test]
fn ended_login_stays_as_it_is() {
    let (state, action) = login(LoginState::Authenticated, &login_config(), failed("late"));
    assert_eq!((state, action), (LoginState::Authenticated, LoginAction::Stop));
    let (state, action) = login(LoginState::Failed, &login_config(), LoginEvent::Authorized(true));
    assert_eq!((state, action), (LoginState::Failed, LoginAction::Stop));
}

#[test]
fn login_errors_in_words() {
    let say = |step: LoginStep| LoginError { step, cause: "why".to_string() }.message();
    assert_eq!(say(LoginStep::CheckAuthorized), "Failed to check if authorized: why");
    assert_eq!(say(LoginStep::ReadPhone), "Failed to read phone number: why");
    assert_eq!(say(LoginStep::RequestLoginCode), "why");
    assert_eq!(say(LoginStep::ReadCode), "Failed to read code: why");
    assert_eq!(say(LoginStep::SignIn), "Failed to sign in: why");
    assert_eq!(say(LoginStep::ReadPassword), "Failed to read password: why");
    assert_eq!(say(LoginStep::CheckPassword), "Failed to sign in: Failed to check password: why");
    assert_eq!(say(LoginStep::SaveSession), "Failed to save session: why");
    assert_eq!(say(LoginStep::SignOut), "why");
    assert_eq!(say(LoginStep::Unexpected), "Unexpected event");
}

#[test]
fn typed_text_drops_the_whitespace_around_it() {
    assert_eq!(tg_exporter::text::typed_text("  12345\n"), "12345");
    assert_eq!(tg_exporter::text::typed_text("pass word"), "pass word");
    assert_eq!(tg_exporter::text::typed_text(" \t\r\n"), "");
    assert_eq!(tg_exporter::text::typed_text(""), "");
}
