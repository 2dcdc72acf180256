//! The proxy's settings.
use vstd::prelude::*;

verus! {

/// Settings of the proxy (read from the command line by the binary).
#[derive(Debug)]
pub struct Config {
    /// Listen host address.
    pub host: String,
    /// Listen port.
    pub port: String,
    /// API key; when not empty, requests must carry `Authorization: Bearer <key>`.
    pub api_key: String,
    /// Request timeout in seconds.
    pub timeout: u64,
    /// WebSocket connection timeout in seconds.
    pub conn_timeout: u64,
    /// Session TTL in seconds.
    pub session_ttl: u64,
    /// Session cleanup interval in seconds.
    pub cleanup_interval: u64,
    /// Maximum number of in-memory sessions.
    pub max_sessions: usize,
    /// Print raw protocol logs.
    pub debug: bool,
    /// Disable colored log output.
    pub no_color: bool,
}

} // verus!
