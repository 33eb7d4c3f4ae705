use tg_exporter::client::make_client;
use tg_exporter::config::{
    default_api_id, default_media_path, default_session_path, default_sleep_duration, Config,
    ConfigInner, EnvValues,
};

fn bare_values() -> EnvValues {
    EnvValues {
        api_id: None,
        api_hash: "0123abcd".to_string(),
        source_chat_id: -1001,
        target_chat_id: None,
        export_hashtags: "#export".to_string(),
        session_path: None,
        media_path: None,
        sleep_duration: None,
    }
}

fn full_values() -> EnvValues {
    EnvValues {
        api_id: Some(17),
        api_hash: "feed".to_string(),
        source_chat_id: 5,
        target_chat_id: Some(-6),
        export_hashtags: String::new(),
        session_path: Some("/var/lib/mirror/session".to_string()),
        media_path: Some("/var/lib/mirror/media".to_string()),
        sleep_duration: Some(0),
    }
}

#[test]
fn defaults_have_their_values() {
    assert_eq!(default_api_id(), 20625378);
    assert_eq!(default_session_path(), "exporter.session");
    assert_eq!(default_media_path(), "media");
    assert_eq!(default_sleep_duration(), 2);
}

#[test]
fn missing_values_take_their_defaults() {
    let config = Config::from_env(bare_values());
    assert_eq!(config.api_id(), 20625378);
    assert_eq!(config.api_hash(), "0123abcd");
    assert_eq!(config.source_chat_id(), -1001);
    assert_eq!(config.target_chat_id(), None);
    assert_eq!(config.export_hashtags(), "#export");
    assert_eq!(config.session_path(), "exporter.session");
    assert_eq!(config.media_path(), "media");
    assert_eq!(config.sleep_duration(), 2);
}

#[test]
fn given_values_are_kept() {
    let config = Config::from_env(full_values());
    assert_eq!(config.api_id(), 17);
    assert_eq!(config.api_hash(), "feed");
    assert_eq!(config.source_chat_id(), 5);
    assert_eq!(config.target_chat_id(), Some(-6));
    assert_eq!(config.export_hashtags(), "");
    assert_eq!(config.session_path(), "/var/lib/mirror/session");
    assert_eq!(config.media_path(), "/var/lib/mirror/media");
    assert_eq!(config.sleep_duration(), 0);
}

#[test]
fn inner_settings_fill_defaults_too() {
    let inner = ConfigInner::new(bare_values());
    assert_eq!(inner.api_id(), default_api_id());
    assert_eq!(inner.session_path(), default_session_path());
    assert_eq!(inner.media_path(), default_media_path());
    assert_eq!(inner.sleep_duration(), default_sleep_duration());
}

#[test]
fn client_is_made_from_the_settings() {
    let client = make_client(&Config::from_env(full_values()));
    assert_eq!(client.session_path, "/var/lib/mirror/session");
    assert_eq!(client.api_id, 17);
    assert_eq!(client.api_hash, "feed");
    let client = make_client(&Config::from_env(bare_values()));
    assert_eq!(client.session_path, "exporter.session");
    assert_eq!(client.api_id, 20625378);
    assert_eq!(client.api_hash, "0123abcd");
}
