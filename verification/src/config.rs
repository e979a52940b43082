//! Plain configuration and session records that the shell hands across
//! its boundary.

use vstd::prelude::*;

verus! {

/// Application configuration.
#[derive(Debug, Clone)]
pub struct AppConfig {
    /// Matrix homeserver URL.
    pub homeserver: String,
    /// WebSocket URL.
    pub websocket_url: String,
    /// Application version.
    pub version: String,
}

impl Default for AppConfig {
    /// The built-in defaults used until a configuration is loaded.
    fn default() -> (r: AppConfig)
        ensures
            r.homeserver@ == "https://matrix.org"@,
            r.websocket_url@ == "ws://localhost:8080"@,
            r.version@ == "1.0.0"@,
    {
        AppConfig {
            homeserver: String::from_str("https://matrix.org"),
            websocket_url: String::from_str("ws://localhost:8080"),
            version: String::from_str("1.0.0"),
        }
    }
}

/// The logged-in user's identity as the shell tracks it.
#[derive(Debug, Clone)]
pub struct UserInfo {
    pub token: String,
    pub refresh_token: String,
    pub uid: String,
}

/// A request to hide or reveal one conversation.
#[derive(Debug, Clone)]
pub struct HideContactRequest {
    pub room_id: String,
    pub hide: bool,
}

} // verus!
