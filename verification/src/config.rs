//! Settings of a run and the values they take when none is given.

use std::sync::Arc;
use vstd::prelude::*;
use vstd::string::*;

verus! {

/// Application identifier used when the settings name none.
pub const API_ID: i32 = 20625378;

/// Seconds to wait between two messages when the settings name no delay.
pub const SLEEP_SECONDS: u64 = 2;

pub open spec fn spec_default_session_path() -> Seq<char> {
    "exporter.session"@
}

pub open spec fn spec_default_media_path() -> Seq<char> {
    "media"@
}

pub fn default_api_id() -> (id: i32)
    ensures
        id == API_ID,
{
    API_ID
}

pub fn default_session_path() -> (path: String)
    ensures
        path@ == spec_default_session_path(),
{
    String::from_str("exporter.session")
}

pub fn default_media_path() -> (path: String)
    ensures
        path@ == spec_default_media_path(),
{
    String::from_str("media")
}

pub fn default_sleep_duration() -> (seconds: u64)
    ensures
        seconds == SLEEP_SECONDS,
{
    SLEEP_SECONDS
}

/// What the environment supplied: a value that may be left out is `None`
/// where it was.
pub struct EnvValues {
    pub api_id: Option<i32>,
    pub api_hash: String,
    pub source_chat_id: i64,
    pub target_chat_id: Option<i64>,
    pub export_hashtags: String,
    pub session_path: Option<String>,
    pub media_path: Option<String>,
    pub sleep_duration: Option<u64>,
}

/// The settings as mathematics: every value present, texts as sequences.
pub ghost struct Settings {
    pub api_id: i32,
    pub api_hash: Seq<char>,
    pub source_chat_id: i64,
    pub target_chat_id: Option<i64>,
    pub export_hashtags: Seq<char>,
    pub session_path: Seq<char>,
    pub media_path: Seq<char>,
    pub sleep_duration: u64,
}

/// The settings that `values` stand for once each missing value has been
/// replaced by its default.
pub open spec fn spec_settings(values: EnvValues) -> Settings {
    Settings {
        api_id: match values.api_id {
            Some(id) => id,
            None => API_ID,
        },
        api_hash: values.api_hash@,
        source_chat_id: values.source_chat_id,
        target_chat_id: values.target_chat_id,
        export_hashtags: values.export_hashtags@,
        session_path: match values.session_path {
            Some(path) => path@,
            None => spec_default_session_path(),
        },
        media_path: match values.media_path {
            Some(path) => path@,
            None => spec_default_media_path(),
        },
        sleep_duration: match values.sleep_duration {
            Some(seconds) => seconds,
            None => SLEEP_SECONDS,
        },
    }
}

pub struct ConfigInner {
    api_id: i32,
    api_hash: String,
    source_chat_id: i64,
    target_chat_id: Option<i64>,
    export_hashtags: String,
    session_path: String,
    media_path: String,
    sleep_duration: u64,
}

impl View for ConfigInner {
    type V = Settings;

    closed spec fn view(&self) -> Settings {
        Settings {
            api_id: self.api_id,
            api_hash: self.api_hash@,
            source_chat_id: self.source_chat_id,
            target_chat_id: self.target_chat_id,
            export_hashtags: self.export_hashtags@,
            session_path: self.session_path@,
            media_path: self.media_path@,
            sleep_duration: self.sleep_duration,
        }
    }
}

impl ConfigInner {
    /// Fills each missing value of `values` with its default.
    pub fn new(values: EnvValues) -> (inner: ConfigInner)
        ensures
            inner@ == spec_settings(values),
    {
        let api_id: i32 = match values.api_id {
            Some(id) => id,
            None => default_api_id(),
        };
        let session_path = match values.session_path {
            Some(path) => path,
            None => default_session_path(),
        };
        let media_path = match values.media_path {
            Some(path) => path,
            None => default_media_path(),
        };
        let sleep_duration: u64 = match values.sleep_duration {
            Some(seconds) => seconds,
            None => default_sleep_duration(),
        };
        ConfigInner {
            api_id,
            api_hash: values.api_hash,
            source_chat_id: values.source_chat_id,
            target_chat_id: values.target_chat_id,
            export_hashtags: values.export_hashtags,
            session_path,
            media_path,
            sleep_duration,
        }
    }

    pub fn api_id(&self) -> (id: i32)
        ensures
            id == self@.api_id,
    {
        self.api_id
    }

    pub fn api_hash(&self) -> (hash: &str)
        ensures
            hash@ == self@.api_hash,
    {
        self.api_hash.as_str()
    }

    pub fn source_chat_id(&self) -> (id: i64)
        ensures
            id == self@.source_chat_id,
    {
        self.source_chat_id
    }

    pub fn target_chat_id(&self) -> (id: Option<i64>)
        ensures
            id == self@.target_chat_id,
    {
        self.target_chat_id
    }

    pub fn export_hashtags(&self) -> (hashtags: &str)
        ensures
            hashtags@ == self@.export_hashtags,
    {
        self.export_hashtags.as_str()
    }

    pub fn session_path(&self) -> (path: &str)
        ensures
            path@ == self@.session_path,
    {
        self.session_path.as_str()
    }

    pub fn media_path(&self) -> (path: &str)
        ensures
            path@ == self@.media_path,
    {
        self.media_path.as_str()
    }

    pub fn sleep_duration(&self) -> (seconds: u64)
        ensures
            seconds == self@.sleep_duration,
    {
        self.sleep_duration
    }
}

/// The settings of a run, shared by reference count.
pub struct Config {
    inner: Arc<ConfigInner>,
}

impl View for Config {
    type V = Settings;

    closed spec fn view(&self) -> Settings {
        self.inner@
    }
}

impl Config {
    /// Builds the settings from what the environment supplied.
    pub fn from_env(values: EnvValues) -> (config: Config)
        ensures
            config@ == spec_settings(values),
    {
        Config { inner: Arc::new(ConfigInner::new(values)) }
    }
}

impl std::ops::Deref for Config {
    type Target = ConfigInner;

    fn deref(&self) -> (inner: &ConfigInner)
        ensures
            inner@ == self@,
    {
        &self.inner
    }
}

} // verus!
