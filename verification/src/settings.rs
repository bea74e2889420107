//! Application settings, as plain values.
//!
//! Reading and parsing configuration files is the surrounding
//! program's concern; the library holds the resulting values.

use vstd::prelude::*;

verus! {

/// Where the server listens.
pub struct ServerConfig {
    pub host: String,
    pub port: u16,
}

/// Connection-handling limits.
pub struct WebSocketConfig {
    pub max_connections: usize,
    pub timeout_seconds: u64,
}

/// The application's settings.
pub struct Settings {
    pub server: ServerConfig,
    pub websocket: WebSocketConfig,
}

impl Settings {
    /// Assembles settings from their plain values.
    pub fn new(host: String, port: u16, max_connections: usize, timeout_seconds: u64) -> (r:
        Settings)
        ensures
            r.server.host@ == host@,
            r.server.port == port,
            r.websocket.max_connections == max_connections,
            r.websocket.timeout_seconds == timeout_seconds,
    {
        Settings {
            server: ServerConfig { host, port },
            websocket: WebSocketConfig { max_connections, timeout_seconds },
        }
    }
}

} // verus!
