//! Local authorization-code relay: a session manager that brokers a
//! browser-based login redirect, validates the callback against a CSRF state
//! token, applies token-refresh results from a remote token service, and keeps
//! the session persisted to an encrypted record.
//!
//! The library holds the protocol and state logic; the surrounding application
//! supplies the HTTP transport, disk I/O and clock, and feeds their outcomes
//! back in as plain values.

use vstd::prelude::*;

pub mod digits;
pub mod models;
pub mod server;
pub mod storage;
pub mod user;

verus! {

/// Error taxonomy of the session core.
#[derive(Debug, Clone, Copy, PartialEq, Eq, Structural)]
pub enum AuthError {
    /// Missing or empty apiKey / appId after resolution.
    ConfigError,
    /// A remote call failed to complete.
    NetworkError,
    /// The remote service returned a non-success status.
    AuthRejected,
    /// The callback state did not match the pending authorization.
    CsrfMismatch,
    /// Encrypt/decrypt or record-decoding failure of the persisted session.
    StorageError,
}

/// Static configuration of the relay, loaded once at startup.
#[derive(Debug, Clone)]
pub struct AuthiumConfig {
    pub api_key: Option<String>,
    pub app_id: Option<String>,
    pub port: Option<u16>,
}

impl AuthiumConfig {
    pub fn new(api_key: String, app_id: String) -> (r: Self)
        ensures
            r.api_key matches Some(k) && k@ == api_key@,
            r.app_id matches Some(a) && a@ == app_id@,
            r.port is None,
    {
        Self { api_key: Some(api_key), app_id: Some(app_id), port: None }
    }

    pub fn with_port(self, port: u16) -> (r: Self)
        ensures
            r.api_key == self.api_key,
            r.app_id == self.app_id,
            r.port == Some(port),
    {
        Self { port: Some(port), ..self }
    }

    /// Marks a value that must be resolved against the process environment:
    /// an `env:` prefix, in any letter case.
    pub open spec fn env_marked(s: Seq<char>) -> bool {
        &&& s.len() >= 4
        &&& (s[0] == 'e' || s[0] == 'E')
        &&& (s[1] == 'n' || s[1] == 'N')
        &&& (s[2] == 'v' || s[2] == 'V')
        &&& s[3] == ':'
    }

    /// The name of the environment variable a configured value points at, if
    /// it is an indirection marker; the lookup itself is the application's.
    pub fn env_indirection(value: &str) -> (r: Option<String>)
        ensures
            r is Some <==> Self::env_marked(value@),
            r matches Some(n) ==> n@ == value@.subrange(4, value@.len() as int),
    {
        let len = value.unicode_len();
        if len < 4 {
            return None;
        }
        let c0 = value.get_char(0);
        let c1 = value.get_char(1);
        let c2 = value.get_char(2);
        let c3 = value.get_char(3);
        if (c0 == 'e' || c0 == 'E') && (c1 == 'n' || c1 == 'N') && (c2 == 'v' || c2 == 'V') && c3
            == ':' {
            Some(String::from_str(value.substring_char(4, len)))
        } else {
            None
        }
    }

    /// The port the callback server listens on; 6483 unless configured.
    pub fn listen_port(&self) -> (r: u16)
        ensures
            self.port matches Some(p) ==> r == p,
            self.port is None ==> r == 6483,
    {
        match self.port {
            Some(p) => p,
            None => 6483,
        }
    }
}

} // verus!
