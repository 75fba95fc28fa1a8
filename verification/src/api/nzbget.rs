use vstd::prelude::*;

use crate::api::arr_core::own;
use crate::config::UserPassService;

verus! {

/// NZBGet JSON-RPC client settings (POST to /jsonrpc with HTTP Basic auth).
pub struct NzbgetClient {
    base: String,
    username: String,
    password: String,
    http: reqwest::Client,
}

impl NzbgetClient {
    pub fn new(cfg: &UserPassService, http: reqwest::Client) -> (c: Self)
        ensures
            c.base_spec() == cfg.url@,
            c.username_spec() == cfg.username@,
            c.password_spec() == cfg.password@,
            c.client_spec() == http,
    {
        NzbgetClient {
            base: own(cfg.url.as_str()),
            username: own(cfg.username.as_str()),
            password: own(cfg.password.as_str()),
            http,
        }
    }

    pub closed spec fn base_spec(&self) -> Seq<char> {
        self.base@
    }

    pub closed spec fn username_spec(&self) -> Seq<char> {
        self.username@
    }

    pub closed spec fn password_spec(&self) -> Seq<char> {
        self.password@
    }

    pub fn base_url(&self) -> (s: &str)
        ensures
            s@ == self.base_spec(),
    {
        self.base.as_str()
    }

    pub fn username(&self) -> (s: &str)
        ensures
            s@ == self.username_spec(),
    {
        self.username.as_str()
    }

    pub fn password(&self) -> (s: &str)
        ensures
            s@ == self.password_spec(),
    {
        self.password.as_str()
    }

    /// The HTTP client this service's requests go through.
    pub closed spec fn client_spec(&self) -> reqwest::Client {
        self.http
    }

    /// The HTTP client the settings were made with.
    pub fn http(&self) -> (c: &reqwest::Client)
        ensures
            *c == self.client_spec(),
    {
        &self.http
    }
}

} // verus!

verus! {

/// How an RPC reply fails: an `error` member (non-null; given here as its
/// JSON text) is an API error, and a reply without `result` is refused.
pub fn rpc_failure(method: &str, error: Option<&str>, has_result: bool) -> (r: Option<
    crate::error::CliarrError,
>)
    ensures
        error matches Some(t) ==> (r matches Some(e) && e is Api && e->Api_service == "nzbget"
            && e->status == 200 && e->body@ == "RPC error from "@ + method@ + ": "@ + t@),
        error is None && !has_result ==> (r matches Some(e) && e is Other && e->Other_0@
            == "nzbget: no result from "@ + method@),
        error is None && has_result ==> r is None,
{
    if let Some(t) = error {
        let mut b = crate::text::chars_of("RPC error from ");
        crate::text::push_str(&mut b, method);
        crate::text::push_str(&mut b, ": ");
        crate::text::push_str(&mut b, t);
        return Some(
            crate::error::CliarrError::Api {
                service: "nzbget",
                status: 200,
                body: crate::text::string_of(&b),
            },
        );
    }
    if !has_result {
        let mut m = crate::text::chars_of("nzbget: no result from ");
        crate::text::push_str(&mut m, method);
        return Some(crate::error::CliarrError::Other(crate::text::string_of(&m)));
    }
    None
}

} // verus!
