//! What a connection to the service is made from.

use vstd::prelude::*;
use vstd::string::*;
use crate::config::Config;

verus! {

/// The values that open a connection: where the session is kept and who
/// the application is.
pub struct ClientSettings {
    pub session_path: String,
    pub api_id: i32,
    pub api_hash: String,
}

/// Picks from the settings what the connection is made from. The caller
/// loads or creates the session at `session_path` and connects with it.
pub fn make_client(app_config: &Config) -> (client: ClientSettings)
    ensures
        client.session_path@ == app_config@.session_path,
        client.api_id == app_config@.api_id,
        client.api_hash@ == app_config@.api_hash,
{
    ClientSettings {
        session_path: String::from_str(app_config.session_path()),
        api_id: app_config.api_id(),
        api_hash: String::from_str(app_config.api_hash()),
    }
}

} // verus!
