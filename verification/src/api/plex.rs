use vstd::prelude::*;

use crate::api::arr_core::own;
use crate::config::TokenService;

verus! {

/// Read-only Plex client settings (JSON via Accept header; X-Plex-Token auth).
pub struct PlexClient {
    base: String,
    token: String,
    http: reqwest::Client,
}

impl PlexClient {
    pub fn new(cfg: &TokenService, http: reqwest::Client) -> (c: Self)
        ensures
            c.base_spec() == cfg.url@,
            c.token_spec() == cfg.token@,
            c.client_spec() == http,
    {
        PlexClient { base: own(cfg.url.as_str()), token: own(cfg.token.as_str()), http }
    }

    pub closed spec fn base_spec(&self) -> Seq<char> {
        self.base@
    }

    pub closed spec fn token_spec(&self) -> Seq<char> {
        self.token@
    }

    pub fn base_url(&self) -> (s: &str)
        ensures
            s@ == self.base_spec(),
    {
        self.base.as_str()
    }

    pub fn token(&self) -> (s: &str)
        ensures
            s@ == self.token_spec(),
    {
        self.token.as_str()
    }

    /// The HTTP client this service's requests go through.
    pub closed spec fn client_spec(&self) -> reqwest::Client {
        self.http
    }

    /// The HTTP client the settings were made with.
    pub fn http(&self) -> (c: &reqwest::Client)
        ensures
            *c == self.client_spec(),
    {
        &self.http
    }
}

} // verus!
