//! Signing in: the steps from a stored session or a phone number to an
//! authorized session, with at most three tries at the password.
//!
//! The caller performs the step that [`login`] names (a request to the
//! service, a prompt on the console, a write of the session file) and reports
//! what came of it as the next event. Login code and password never pass
//! through here: the caller keeps what was typed and hands it to the service.

use vstd::prelude::*;
use vstd::string::*;
use crate::config::{Config, Settings};
use crate::text::{
    push_decimal, spec_decimal, spec_trimmed, spec_unexpected_message, spec_with_context,
    typed_text, unexpected_message, with_context,
};

verus! {

/// Tries at the password that one sign-in allows.
pub const PASSWORD_TRIES: u8 = 3;

/// The step of signing in that an error belongs to.
#[derive(Clone, Copy, PartialEq, Eq, Structural, Debug)]
pub enum LoginStep {
    CheckAuthorized,
    ReadPhone,
    RequestLoginCode,
    ReadCode,
    SignIn,
    ReadPassword,
    /// The last allowed try at the password was turned down.
    CheckPassword,
    SaveSession,
    SignOut,
    /// The caller reported something that the state was not waiting for.
    Unexpected,
}

/// Why signing in ended without an authorized session.
#[derive(Clone, Debug, PartialEq, Eq)]
pub struct LoginError {
    pub step: LoginStep,
    /// What the failed step reported; empty for `Unexpected`.
    pub cause: String,
}

pub ghost struct LoginErrorView {
    pub step: LoginStep,
    pub cause: Seq<char>,
}

impl View for LoginError {
    type V = LoginErrorView;

    open spec fn view(&self) -> LoginErrorView {
        LoginErrorView { step: self.step, cause: self.cause@ }
    }
}

/// The failure in words: what was attempted and what went wrong. A failed
/// request for the login code and a failed sign-out are reported by their
/// cause alone; the last password turned down is reported as a failed
/// sign-in around a failed check.
pub open spec fn spec_login_error_message(error: LoginErrorView) -> Seq<char> {
    match error.step {
        LoginStep::CheckAuthorized => spec_with_context(
            "Failed to check if authorized"@,
            error.cause,
        ),
        LoginStep::ReadPhone => spec_with_context("Failed to read phone number"@, error.cause),
        LoginStep::RequestLoginCode => error.cause,
        LoginStep::ReadCode => spec_with_context("Failed to read code"@, error.cause),
        LoginStep::SignIn => spec_with_context("Failed to sign in"@, error.cause),
        LoginStep::ReadPassword => spec_with_context("Failed to read password"@, error.cause),
        LoginStep::CheckPassword => spec_with_context(
            "Failed to sign in"@,
            spec_with_context("Failed to check password"@, error.cause),
        ),
        LoginStep::SaveSession => spec_with_context("Failed to save session"@, error.cause),
        LoginStep::SignOut => error.cause,
        LoginStep::Unexpected => spec_unexpected_message(),
    }
}

impl LoginError {
    /// The failure in words.
    pub fn message(&self) -> (message: String)
        ensures
            message@ == spec_login_error_message(self@),
    {
        let cause = self.cause.as_str();
        match self.step {
            LoginStep::CheckAuthorized => with_context("Failed to check if authorized", cause),
            LoginStep::ReadPhone => with_context("Failed to read phone number", cause),
            LoginStep::RequestLoginCode => String::from_str(cause),
            LoginStep::ReadCode => with_context("Failed to read code", cause),
            LoginStep::SignIn => with_context("Failed to sign in", cause),
            LoginStep::ReadPassword => with_context("Failed to read password", cause),
            LoginStep::CheckPassword => {
                let inner = with_context("Failed to check password", cause);
                with_context("Failed to sign in", inner.as_str())
            },
            LoginStep::SaveSession => with_context("Failed to save session", cause),
            LoginStep::SignOut => String::from_str(cause),
            LoginStep::Unexpected => unexpected_message(),
        }
    }
}

/// Where signing in stands: each state waits for the outcome of the step that
/// was named last.
#[derive(Clone, Debug, PartialEq, Eq)]
pub enum LoginState {
    /// Asked whether the stored session is authorized.
    CheckingSession,
    /// Asked for the phone number.
    AwaitingPhone,
    /// Asked the service to send a login code.
    RequestingCode,
    /// Asked for the login code.
    AwaitingCode,
    /// Handed the code to the service.
    SigningIn,
    /// Asked for the password, after `failed` tries that were turned down.
    AwaitingPassword { hint: Option<String>, failed: u8 },
    /// Handed the password to the service.
    CheckingPassword { hint: Option<String>, failed: u8 },
    /// Asked for the session to be written.
    SavingSession,
    /// The session could not be written (`cause`); asked for a sign-out.
    SigningOut { cause: String },
    Authenticated,
    Failed,
}

/// What the caller reports back.
#[derive(Clone, Debug, PartialEq, Eq)]
pub enum LoginEvent {
    /// The answer to `CheckAuthorized`.
    Authorized(bool),
    /// The line typed at the phone prompt.
    Phone(String),
    /// The service sent a login code.
    CodeSent,
    /// A login code was typed.
    Code,
    /// The service asks for the account's password.
    PasswordRequired { hint: Option<String> },
    /// A password was typed.
    Password,
    /// The service accepted the code or the password.
    Accepted,
    SessionSaved,
    SignedOut,
    /// The step that was asked for failed.
    Failed { cause: String },
}

/// The step to perform next.
#[derive(Clone, Debug, PartialEq, Eq)]
pub enum LoginAction {
    CheckAuthorized,
    PromptPhone { message: String },
    RequestLoginCode { phone: String },
    PromptCode { message: String },
    SignIn,
    PromptPassword { message: String },
    CheckPassword,
    SaveSession { path: String },
    SignOutDisconnect,
    /// Signed in: nothing is left to do.
    Done,
    /// Signing in has failed: nothing is left to do.
    Fail(LoginError),
    /// The event came after the end and changed nothing.
    Stop,
}

pub ghost enum LoginActionView {
    CheckAuthorized,
    PromptPhone { message: Seq<char> },
    RequestLoginCode { phone: Seq<char> },
    PromptCode { message: Seq<char> },
    SignIn,
    PromptPassword { message: Seq<char> },
    CheckPassword,
    SaveSession { path: Seq<char> },
    SignOutDisconnect,
    Done,
    Fail(LoginErrorView),
    Stop,
}

impl View for LoginAction {
    type V = LoginActionView;

    open spec fn view(&self) -> LoginActionView {
        match *self {
            LoginAction::CheckAuthorized => LoginActionView::CheckAuthorized,
            LoginAction::PromptPhone { message } => LoginActionView::PromptPhone {
                message: message@,
            },
            LoginAction::RequestLoginCode { phone } => LoginActionView::RequestLoginCode {
                phone: phone@,
            },
            LoginAction::PromptCode { message } => LoginActionView::PromptCode {
                message: message@,
            },
            LoginAction::SignIn => LoginActionView::SignIn,
            LoginAction::PromptPassword { message } => LoginActionView::PromptPassword {
                message: message@,
            },
            LoginAction::CheckPassword => LoginActionView::CheckPassword,
            LoginAction::SaveSession { path } => LoginActionView::SaveSession { path: path@ },
            LoginAction::SignOutDisconnect => LoginActionView::SignOutDisconnect,
            LoginAction::Done => LoginActionView::Done,
            LoginAction::Fail(error) => LoginActionView::Fail(error@),
            LoginAction::Stop => LoginActionView::Stop,
        }
    }
}

pub open spec fn spec_phone_prompt() -> Seq<char> {
    "Enter your phone number: "@
}

pub open spec fn spec_code_prompt() -> Seq<char> {
    "Enter the code you received: "@
}

/// The hint as the prompt shows it: `None` where the account has none.
pub open spec fn spec_shown_hint(hint: Option<String>) -> Seq<char> {
    match hint {
        Some(h) => h@,
        None => "None"@,
    }
}

/// The password prompt after `failed` tries that were turned down.
pub open spec fn spec_password_prompt(failed: int, hint: Option<String>) -> Seq<char> {
    seq!['['] + spec_decimal(PASSWORD_TRIES - failed)
        + " / 3 tries left] Enter the password (hint "@ + spec_shown_hint(hint) + "): "@
}

pub open spec fn spec_fail(step: LoginStep, cause: Seq<char>) -> (LoginState, LoginActionView) {
    (LoginState::Failed, LoginActionView::Fail(LoginErrorView { step, cause }))
}

pub open spec fn spec_unexpected() -> (LoginState, LoginActionView) {
    spec_fail(LoginStep::Unexpected, Seq::empty())
}

pub open spec fn spec_begin_login() -> (LoginState, LoginActionView) {
    (LoginState::CheckingSession, LoginActionView::CheckAuthorized)
}

/// The state after `event` and the step to perform next.
pub open spec fn spec_login(state: LoginState, settings: Settings, event: LoginEvent) -> (
    LoginState,
    LoginActionView,
) {
    match state {
        LoginState::CheckingSession => match event {
            LoginEvent::Authorized(true) => (LoginState::Authenticated, LoginActionView::Done),
            LoginEvent::Authorized(false) => (
                LoginState::AwaitingPhone,
                LoginActionView::PromptPhone { message: spec_phone_prompt() },
            ),
            LoginEvent::Failed { cause } => spec_fail(LoginStep::CheckAuthorized, cause@),
            _ => spec_unexpected(),
        },
        LoginState::AwaitingPhone => match event {
            LoginEvent::Phone(line) => (
                LoginState::RequestingCode,
                LoginActionView::RequestLoginCode { phone: spec_trimmed(line@) },
            ),
            LoginEvent::Failed { cause } => spec_fail(LoginStep::ReadPhone, cause@),
            _ => spec_unexpected(),
        },
        LoginState::RequestingCode => match event {
            LoginEvent::CodeSent => (
                LoginState::AwaitingCode,
                LoginActionView::PromptCode { message: spec_code_prompt() },
            ),
            LoginEvent::Failed { cause } => spec_fail(LoginStep::RequestLoginCode, cause@),
            _ => spec_unexpected(),
        },
        LoginState::AwaitingCode => match event {
            LoginEvent::Code => (LoginState::SigningIn, LoginActionView::SignIn),
            LoginEvent::Failed { cause } => spec_fail(LoginStep::ReadCode, cause@),
            _ => spec_unexpected(),
        },
        LoginState::SigningIn => match event {
            LoginEvent::Accepted => (
                LoginState::SavingSession,
                LoginActionView::SaveSession { path: settings.session_path },
            ),
            LoginEvent::PasswordRequired { hint } => (
                LoginState::AwaitingPassword { hint, failed: 0 },
                LoginActionView::PromptPassword { message: spec_password_prompt(0, hint) },
            ),
            LoginEvent::Failed { cause } => spec_fail(LoginStep::SignIn, cause@),
            _ => spec_unexpected(),
        },
        LoginState::AwaitingPassword { hint, failed } => match event {
            LoginEvent::Password => (
                LoginState::CheckingPassword { hint, failed },
                LoginActionView::CheckPassword,
            ),
            LoginEvent::Failed { cause } => spec_fail(LoginStep::ReadPassword, cause@),
            _ => spec_unexpected(),
        },
        LoginState::CheckingPassword { hint, failed } => match event {
            LoginEvent::Accepted => (
                LoginState::SavingSession,
                LoginActionView::SaveSession { path: settings.session_path },
            ),
            LoginEvent::Failed { cause } => if failed + 1 >= PASSWORD_TRIES {
                spec_fail(LoginStep::CheckPassword, cause@)
            } else {
                (
                    LoginState::AwaitingPassword { hint, failed: (failed + 1) as u8 },
                    LoginActionView::PromptPassword {
                        message: spec_password_prompt(failed + 1, hint),
                    },
                )
            },
            _ => spec_unexpected(),
        },
        LoginState::SavingSession => match event {
            LoginEvent::SessionSaved => (LoginState::Authenticated, LoginActionView::Done),
            LoginEvent::Failed { cause } => (
                LoginState::SigningOut { cause },
                LoginActionView::SignOutDisconnect,
            ),
            _ => spec_unexpected(),
        },
        LoginState::SigningOut { cause: unsaved } => match event {
            LoginEvent::SignedOut => spec_fail(LoginStep::SaveSession, unsaved@),
            LoginEvent::Failed { cause } => spec_fail(LoginStep::SignOut, cause@),
            _ => spec_unexpected(),
        },
        LoginState::Authenticated => (LoginState::Authenticated, LoginActionView::Stop),
        LoginState::Failed => (LoginState::Failed, LoginActionView::Stop),
    }
}

fn fail(step: LoginStep, cause: String) -> (next: (LoginState, LoginAction))
    ensures
        next.0 == LoginState::Failed,
        next.1@ == spec_fail(step, cause@).1,
{
    (LoginState::Failed, LoginAction::Fail(LoginError { step, cause }))
}

fn unexpected() -> (next: (LoginState, LoginAction))
    ensures
        next.0 == spec_unexpected().0,
        next.1@ == spec_unexpected().1,
{
    fail(LoginStep::Unexpected, String::new())
}

/// The password prompt after `failed` tries that were turned down.
fn password_prompt(failed: u8, hint: &Option<String>) -> (message: String)
    requires
        failed < PASSWORD_TRIES,
    ensures
        message@ == spec_password_prompt(failed as int, *hint),
{
    let mut message = String::from_str("[");
    proof {
        reveal_strlit("[");
    }
    push_decimal(&mut message, (PASSWORD_TRIES - failed) as i64);
    message.append(" / 3 tries left] Enter the password (hint ");
    match hint {
        Some(h) => message.append(h.as_str()),
        None => message.append("None"),
    }
    message.append("): ");
    assert(message@ =~= spec_password_prompt(failed as int, *hint));
    message
}

fn save_session(config: &Config) -> (next: (LoginState, LoginAction))
    ensures
        next.0 == LoginState::SavingSession,
        next.1@ == (LoginActionView::SaveSession { path: config@.session_path }),
{
    (
        LoginState::SavingSession,
        LoginAction::SaveSession { path: String::from_str(config.session_path()) },
    )
}

/// The first step of signing in: ask whether the stored session is
/// authorized.
pub fn begin_login() -> (next: (LoginState, LoginAction))
    ensures
        next.0 == spec_begin_login().0,
        next.1@ == spec_begin_login().1,
{
    (LoginState::CheckingSession, LoginAction::CheckAuthorized)
}

/// Takes signing in one step further: from the state and what the caller
/// reports to the next state and the step to perform.
pub fn login(state: LoginState, config: &Config, event: LoginEvent) -> (next: (
    LoginState,
    LoginAction,
))
    ensures
        next.0 == spec_login(state, config@, event).0,
        next.1@ == spec_login(state, config@, event).1,
{
    match state {
        LoginState::CheckingSession => match event {
            LoginEvent::Authorized(true) => (LoginState::Authenticated, LoginAction::Done),
            LoginEvent::Authorized(false) => (
                LoginState::AwaitingPhone,
                LoginAction::PromptPhone { message: String::from_str("Enter your phone number: ") },
            ),
            LoginEvent::Failed { cause } => fail(LoginStep::CheckAuthorized, cause),
            _ => unexpected(),
        },
        LoginState::AwaitingPhone => match event {
            LoginEvent::Phone(line) => (
                LoginState::RequestingCode,
                LoginAction::RequestLoginCode {
                    phone: String::from_str(typed_text(line.as_str())),
                },
            ),
            LoginEvent::Failed { cause } => fail(LoginStep::ReadPhone, cause),
            _ => unexpected(),
        },
        LoginState::RequestingCode => match event {
            LoginEvent::CodeSent => (
                LoginState::AwaitingCode,
                LoginAction::PromptCode {
                    message: String::from_str("Enter the code you received: "),
                },
            ),
            LoginEvent::Failed { cause } => fail(LoginStep::RequestLoginCode, cause),
            _ => unexpected(),
        },
        LoginState::AwaitingCode => match event {
            LoginEvent::Code => (LoginState::SigningIn, LoginAction::SignIn),
            LoginEvent::Failed { cause } => fail(LoginStep::ReadCode, cause),
            _ => unexpected(),
        },
        LoginState::SigningIn => match event {
            LoginEvent::Accepted => save_session(config),
            LoginEvent::PasswordRequired { hint } => {
                let message = password_prompt(0, &hint);
                (
                    LoginState::AwaitingPassword { hint, failed: 0 },
                    LoginAction::PromptPassword { message },
                )
            },
            LoginEvent::Failed { cause } => fail(LoginStep::SignIn, cause),
            _ => unexpected(),
        },
        LoginState::AwaitingPassword { hint, failed } => match event {
            LoginEvent::Password => (
                LoginState::CheckingPassword { hint, failed },
                LoginAction::CheckPassword,
            ),
            LoginEvent::Failed { cause } => fail(LoginStep::ReadPassword, cause),
            _ => unexpected(),
        },
        LoginState::CheckingPassword { hint, failed } => match event {
            LoginEvent::Accepted => save_session(config),
            LoginEvent::Failed { cause } => {
                if failed >= PASSWORD_TRIES - 1 {
                    fail(LoginStep::CheckPassword, cause)
                } else {
                    let message = password_prompt(failed + 1, &hint);
                    (
                        LoginState::AwaitingPassword { hint, failed: failed + 1 },
                        LoginAction::PromptPassword { message },
                    )
                }
            },
            _ => unexpected(),
        },
        LoginState::SavingSession => match event {
            LoginEvent::SessionSaved => (LoginState::Authenticated, LoginAction::Done),
            LoginEvent::Failed { cause } => (
                LoginState::SigningOut { cause },
                LoginAction::SignOutDisconnect,
            ),
            _ => unexpected(),
        },
        LoginState::SigningOut { cause: unsaved } => match event {
            LoginEvent::SignedOut => fail(LoginStep::SaveSession, unsaved),
            LoginEvent::Failed { cause } => fail(LoginStep::SignOut, cause),
            _ => unexpected(),
        },
        LoginState::Authenticated => (LoginState::Authenticated, LoginAction::Stop),
        LoginState::Failed => (LoginState::Failed, LoginAction::Stop),
    }
}

/// The state after all of `events`, reported one by one from `state` on, and
/// the steps that were named on the way.
pub open spec fn spec_login_run(state: LoginState, settings: Settings, events: Seq<LoginEvent>) -> (
    LoginState,
    Seq<LoginActionView>,
)
    decreases events.len(),
{
    if events.len() == 0 {
        (state, Seq::empty())
    } else {
        let first = spec_login(state, settings, events[0]);
        let rest = spec_login_run(first.0, settings, events.drop_first());
        (rest.0, seq![first.1] + rest.1)
    }
}

/// How many of `actions` ask for the password.
pub open spec fn spec_password_prompts(actions: Seq<LoginActionView>) -> nat
    decreases actions.len(),
{
    if actions.len() == 0 {
        0
    } else {
        let rest = spec_password_prompts(actions.drop_first());
        if actions[0] is PromptPassword {
            rest + 1
        } else {
            rest
        }
    }
}

/// Password prompts that can still follow from `state`.
pub open spec fn spec_prompts_left(state: LoginState) -> nat {
    match state {
        LoginState::CheckingSession
        | LoginState::AwaitingPhone
        | LoginState::RequestingCode
        | LoginState::AwaitingCode
        | LoginState::SigningIn => PASSWORD_TRIES as nat,
        LoginState::AwaitingPassword { failed, .. }
        | LoginState::CheckingPassword { failed, .. } => if failed + 1 < PASSWORD_TRIES {
            (PASSWORD_TRIES - 1 - failed) as nat
        } else {
            0
        },
        _ => 0,
    }
}

proof fn lemma_prompts_cons(first: LoginActionView, rest: Seq<LoginActionView>)
    ensures
        spec_password_prompts(seq![first] + rest) == spec_password_prompts(rest) + (if first
            is PromptPassword {
            1nat
        } else {
            0nat
        }),
{
    assert((seq![first] + rest).drop_first() =~= rest);
}

/// Whatever the caller reports from `state` on, the password is asked for no
/// more often than the state's remaining budget allows.
pub proof fn lemma_prompts_within_budget(
    state: LoginState,
    settings: Settings,
    events: Seq<LoginEvent>,
)
    ensures
        spec_password_prompts(spec_login_run(state, settings, events).1) <= spec_prompts_left(
            state,
        ),
    decreases events.len(),
{
    if events.len() > 0 {
        let first = spec_login(state, settings, events[0]);
        let rest = spec_login_run(first.0, settings, events.drop_first());
        lemma_prompts_within_budget(first.0, settings, events.drop_first());
        lemma_prompts_cons(first.1, rest.1);
    }
}

/// One sign-in asks for the password at most three times, whatever the
/// caller reports and in whatever order.
pub proof fn lemma_at_most_three_password_prompts(settings: Settings, events: Seq<LoginEvent>)
    ensures
        spec_password_prompts(spec_login_run(spec_begin_login().0, settings, events).1)
            <= PASSWORD_TRIES,
{
    lemma_prompts_within_budget(spec_begin_login().0, settings, events);
}

/// Three passwords turned down in a row end the sign-in: the prompts count
/// down from three tries to one, the third refusal is handed out as the
/// error, and no further prompt follows.
pub proof fn lemma_three_rejections_fail(
    settings: Settings,
    hint: Option<String>,
    first: String,
    second: String,
    third: String,
)
    ensures
        ({
            let asked = spec_login(
                LoginState::SigningIn,
                settings,
                LoginEvent::PasswordRequired { hint },
            );
            let typed1 = spec_login(asked.0, settings, LoginEvent::Password);
            let refused1 = spec_login(typed1.0, settings, LoginEvent::Failed { cause: first });
            let typed2 = spec_login(refused1.0, settings, LoginEvent::Password);
            let refused2 = spec_login(typed2.0, settings, LoginEvent::Failed { cause: second });
            let typed3 = spec_login(refused2.0, settings, LoginEvent::Password);
            let refused3 = spec_login(typed3.0, settings, LoginEvent::Failed { cause: third });
            &&& asked.1 == (LoginActionView::PromptPassword {
                message: spec_password_prompt(0, hint),
            })
            &&& typed1.1 == LoginActionView::CheckPassword
            &&& refused1.1 == (LoginActionView::PromptPassword {
                message: spec_password_prompt(1, hint),
            })
            &&& typed2.1 == LoginActionView::CheckPassword
            &&& refused2.1 == (LoginActionView::PromptPassword {
                message: spec_password_prompt(2, hint),
            })
            &&& typed3.1 == LoginActionView::CheckPassword
            &&& refused3.0 == LoginState::Failed
            &&& refused3.1 == LoginActionView::Fail(
                LoginErrorView { step: LoginStep::CheckPassword, cause: third@ },
            )
        }),
{
}

/// Once signing in has ended, in success or in failure, nothing that the
/// caller reports changes the state or asks for another step.
pub proof fn lemma_login_ends(state: LoginState, settings: Settings, events: Seq<LoginEvent>)
    requires
        state is Authenticated || state is Failed,
    ensures
        spec_login_run(state, settings, events).0 == state,
        forall|i: int|
            0 <= i < events.len() ==> #[trigger] spec_login_run(state, settings, events).1[i]
                == LoginActionView::Stop,
        spec_login_run(state, settings, events).1.len() == events.len(),
    decreases events.len(),
{
    if events.len() > 0 {
        lemma_login_ends(state, settings, events.drop_first());
    }
}

/// The session is authorized only where the stored one already was, or where
/// the fresh one has been written.
pub proof fn lemma_authenticated_after_save(
    state: LoginState,
    settings: Settings,
    event: LoginEvent,
)
    requires
        !(state is Authenticated),
        spec_login(state, settings, event).0 is Authenticated,
    ensures
        (state is CheckingSession && event == LoginEvent::Authorized(true)) || (state
            is SavingSession && event is SessionSaved),
        spec_login(state, settings, event).1 == LoginActionView::Done,
{
}

/// A session that could not be written is signed out before the failure is
/// handed out.
pub proof fn lemma_unsaved_session_signed_out(settings: Settings, cause: String)
    ensures
        ({
            let unsaved = spec_login(
                LoginState::SavingSession,
                settings,
                LoginEvent::Failed { cause },
            );
            let left = spec_login(unsaved.0, settings, LoginEvent::SignedOut);
            &&& unsaved.1 == LoginActionView::SignOutDisconnect
            &&& left.0 == LoginState::Failed
            &&& left.1 == LoginActionView::Fail(
                LoginErrorView { step: LoginStep::SaveSession, cause: cause@ },
            )
        }),
{
}

} // verus!
