//! The client handle: connection configuration for reaching the local
//! tunneling daemon. Pure configuration storage with fluent setters; the
//! HTTP transport that uses it lives outside this crate.

use vstd::prelude::*;

verus! {

/// Connection configuration for the local daemon.
pub struct Lokal {
    /// Base URL of the daemon's API.
    pub base_url: String,
    /// Optional basic-auth credentials as `(username, password)`.
    pub basic_auth: (String, String),
    /// Optional API token.
    pub token: String,
}

impl Lokal {
    /// A handle pointing at the daemon's default local address, with empty
    /// credentials and token.
    pub fn new_default() -> (r: Lokal)
        ensures
            r.base_url@ == "http://127.0.0.1:6174"@,
            r.basic_auth.0@ == Seq::<char>::empty(),
            r.basic_auth.1@ == Seq::<char>::empty(),
            r.token@ == Seq::<char>::empty(),
    {
        Lokal {
            base_url: "http://127.0.0.1:6174".to_owned(),
            basic_auth: (String::new(), String::new()),
            token: String::new(),
        }
    }

    /// Replaces the base URL.
    pub fn set_base_url(self, url: String) -> (r: Lokal)
        ensures
            r == (Lokal { base_url: url, ..self }),
    {
        Lokal { base_url: url, ..self }
    }

    /// Replaces the basic-auth credentials.
    pub fn set_basic_auth(self, username: String, password: String) -> (r: Lokal)
        ensures
            r == (Lokal { basic_auth: (username, password), ..self }),
    {
        Lokal { basic_auth: (username, password), ..self }
    }

    /// Replaces the API token.
    pub fn set_api_token(self, token: String) -> (r: Lokal)
        ensures
            r == (Lokal { token, ..self }),
    {
        Lokal { token, ..self }
    }
}

} // verus!
