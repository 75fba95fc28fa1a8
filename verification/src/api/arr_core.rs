//! Connection settings shared by Radarr and Sonarr (identical v3 API conventions).
use vstd::prelude::*;

use crate::text::{chars_of, string_of};

verus! {

/// reqwest's HTTP client, carried opaquely.
#[verifier::external_type_specification]
#[verifier::external_body]
pub struct ExHttpClient(reqwest::Client);

/// `reqwest::Client::clone`: clients share one connection pool and cookie store.
#[verifier::external_body]
pub(crate) fn share_client(c: &reqwest::Client) -> reqwest::Client {
    c.clone()
}

/// Owned copy of a string slice.
pub fn own(s: &str) -> (r: String)
    ensures
        r@ == s@,
{
    string_of(&chars_of(s))
}

pub struct ArrCore {
    pub service: &'static str,
    base: String,
    key: String,
    http: reqwest::Client,
}

impl ArrCore {
    pub fn new(service: &'static str, url: &str, api_key: &str, http: reqwest::Client) -> (c: Self)
        ensures
            c.service_spec() == service,
            c.base_spec() == url@,
            c.key_spec() == api_key@,
            c.client_spec() == http,
    {
        ArrCore { service, base: own(url), key: own(api_key), http }
    }

    pub closed spec fn service_spec(&self) -> &'static str {
        self.service
    }

    pub closed spec fn base_spec(&self) -> Seq<char> {
        self.base@
    }

    pub closed spec fn key_spec(&self) -> Seq<char> {
        self.key@
    }

    pub fn base_url(&self) -> (s: &str)
        ensures
            s@ == self.base_spec(),
    {
        self.base.as_str()
    }

    pub fn api_key(&self) -> (s: &str)
        ensures
            s@ == self.key_spec(),
    {
        self.key.as_str()
    }

    /// The HTTP client this service's requests go through.
    pub closed spec fn client_spec(&self) -> reqwest::Client {
        self.http
    }

    /// The HTTP client the settings were made with.
    pub fn http(&self) -> (c: &reqwest::Client)
        ensures
            *c == self.client_spec(),
    {
        &self.http
    }
}

} // verus!
