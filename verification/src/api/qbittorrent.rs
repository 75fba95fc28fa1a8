use vstd::prelude::*;

use crate::api::arr_core::own;
use crate::config::UserPassService;
use crate::text::{
    char_index, chars_eq, chars_of, find_char, parse_u64, parse_unsigned, sub_chars, trim_chars,
    trim_ws,
};

verus! {

/// tokio's async mutex, carried opaquely.
#[verifier::external_type_specification]
#[verifier::external_body]
#[verifier::reject_recursive_types(T)]
pub struct ExAsyncMutex<T: ?Sized>(tokio::sync::Mutex<T>);

/// `tokio::sync::Mutex::new`: a lock holding `value`. The lock's contents
/// are not visible to Verus, so nothing is claimed of the result.
#[verifier::external_body]
fn async_lock(value: Option<bool>) -> tokio::sync::Mutex<Option<bool>> {
    tokio::sync::Mutex::new(value)
}

/// qBittorrent WebUI API v2 client settings. Auth is a session cookie from
/// /api/v2/auth/login (kept by the shared cookie store). qBittorrent 5.x
/// renamed pause/resume to stop/start; the probed flavour is cached here.
pub struct QbitClient {
    base: String,
    username: String,
    password: String,
    http: reqwest::Client,
    /// None = not probed yet; Some(true) = 5.x-style stop/start endpoints.
    uses_stop_start: tokio::sync::Mutex<Option<bool>>,
}

impl QbitClient {
    pub fn new(cfg: &UserPassService, http: reqwest::Client) -> (c: Self)
        ensures
            c.base_spec() == cfg.url@,
            c.username_spec() == cfg.username@,
            c.password_spec() == cfg.password@,
            c.client_spec() == http,
    {
        QbitClient {
            base: own(cfg.url.as_str()),
            username: own(cfg.username.as_str()),
            password: own(cfg.password.as_str()),
            http,
            uses_stop_start: async_lock(None),
        }
    }

    pub closed spec fn base_spec(&self) -> Seq<char> {
        self.base@
    }

    pub closed spec fn username_spec(&self) -> Seq<char> {
        self.username@
    }

    pub closed spec fn password_spec(&self) -> Seq<char> {
        self.password@
    }

    pub fn base_url(&self) -> (s: &str)
        ensures
            s@ == self.base_spec(),
    {
        self.base.as_str()
    }

    pub fn username(&self) -> (s: &str)
        ensures
            s@ == self.username_spec(),
    {
        self.username.as_str()
    }

    pub fn password(&self) -> (s: &str)
        ensures
            s@ == self.password_spec(),
    {
        self.password.as_str()
    }

    /// The HTTP client this service's requests go through.
    pub closed spec fn client_spec(&self) -> reqwest::Client {
        self.http
    }

    /// The HTTP client the settings were made with.
    pub fn http(&self) -> (c: &reqwest::Client)
        ensures
            *c == self.client_spec(),
    {
        &self.http
    }

    /// The lock holding this client's probed endpoint flavour.
    pub closed spec fn endpoint_cache_spec(&self) -> tokio::sync::Mutex<Option<bool>> {
        self.uses_stop_start
    }

    /// The cached endpoint flavour (probed once per client): always this
    /// client's own lock, so every caller sees the same probe.
    pub fn endpoint_cache(&self) -> (m: &tokio::sync::Mutex<Option<bool>>)
        ensures
            *m == self.endpoint_cache_spec(),
    {
        &self.uses_stop_start
    }
}

/// `u32::from_str`.
pub open spec fn parse_u32_spec(s: Seq<char>) -> Option<nat> {
    match parse_unsigned(s) {
        Some(v) => if v <= u32::MAX {
            Some(v)
        } else {
            None
        },
        None => None,
    }
}

fn parse_u32_exec(cs: &[char]) -> (r: Option<u32>)
    ensures
        match parse_u32_spec(cs@) {
            Some(v) => r == Some(v as u32),
            None => r is None,
        },
{
    match parse_u64(cs) {
        Some(v) => if v <= 0xffff_ffff {
            Some(v as u32)
        } else {
            None
        },
        None => None,
    }
}

/// The first two `.`-separated fields of a trimmed version string (the
/// second only when there is a dot).
pub open spec fn version_fields(v: Seq<char>) -> (Seq<char>, Option<Seq<char>>) {
    let t = trim_ws(v);
    let i = char_index(t, '.') as int;
    if i < t.len() {
        let r = t.skip(i + 1);
        (t.take(i), Some(r.take(char_index(r, '.') as int)))
    } else {
        (t, None)
    }
}

/// WebAPI 2.11 (qBittorrent 5.0) and later use stop/start instead of
/// pause/resume; unparseable fields default to major 2, minor 0.
pub open spec fn uses_stop_start_spec(webapi_version: Seq<char>) -> bool {
    let (f1, f2) = version_fields(webapi_version);
    let major = match parse_u32_spec(f1) {
        Some(m) => m,
        None => 2,
    };
    let minor = match f2 {
        Some(f) => match parse_u32_spec(f) {
            Some(m) => m,
            None => 0,
        },
        None => 0,
    };
    major > 2 || (major == 2 && minor >= 11)
}

pub fn uses_stop_start(webapi_version: &str) -> (r: bool)
    ensures
        r == uses_stop_start_spec(webapi_version@),
{
    let raw = chars_of(webapi_version);
    let t = trim_chars(&raw);
    let i = find_char(&t, 0, '.');
    assert(t@.skip(0) =~= t@);
    let f1 = sub_chars(&t, 0, i);
    assert(f1@ =~= t@.take(i as int));
    let major: u32 = match parse_u32_exec(&f1) {
        Some(m) => m,
        None => 2,
    };
    let minor: u32 = if i < t.len() {
        let j = find_char(&t, i + 1, '.');
        let f2 = sub_chars(&t, i + 1, j);
        assert(f2@ =~= t@.skip(i + 1).take(j - (i + 1)));
        match parse_u32_exec(&f2) {
            Some(m) => m,
            None => 0,
        }
    } else {
        0
    };
    major > 2 || (major == 2 && minor >= 11)
}

/// How a request finds the endpoint flavour: from the client's cache, or
/// by asking the server for its WebAPI version.
#[derive(Debug, Clone, Copy, PartialEq, Eq, Structural)]
pub enum FlavourStep {
    Known(bool),
    Probe,
}

pub open spec fn flavour_step_spec(cache: Option<bool>) -> FlavourStep {
    match cache {
        Some(v) => FlavourStep::Known(v),
        None => FlavourStep::Probe,
    }
}

/// A cached flavour is used as it is; only an empty cache asks the server.
pub fn flavour_step(cache: &Option<bool>) -> (s: FlavourStep)
    ensures
        s == flavour_step_spec(*cache),
{
    match cache {
        Some(v) => FlavourStep::Known(*v),
        None => FlavourStep::Probe,
    }
}

/// The cache after a probe: the flavour of the version the server gave,
/// or the cache unchanged when the query failed.
pub open spec fn after_probe(cache: Option<bool>, answer: Option<Seq<char>>) -> Option<bool> {
    match answer {
        Some(v) => Some(uses_stop_start_spec(v)),
        None => cache,
    }
}

pub open spec fn answer_view<E>(probe: core::result::Result<String, E>) -> Option<Seq<char>> {
    match probe {
        Ok(v) => Some(v@),
        Err(_) => None,
    }
}

/// The outcome of a WebAPI-version query: its flavour, remembered in
/// `cache` so that later requests on the same client use it without
/// asking again; a failed query is passed on and caches nothing.
pub fn finish_probe<E>(cache: &mut Option<bool>, probe: core::result::Result<String, E>) -> (r:
    core::result::Result<bool, E>)
    ensures
        *final(cache) == after_probe(*old(cache), answer_view(probe)),
        match probe {
            Ok(v) => r == core::result::Result::<bool, E>::Ok(uses_stop_start_spec(v@)),
            Err(e) => r == core::result::Result::<bool, E>::Err(e),
        },
{
    match probe {
        Ok(v) => {
            let stop_start = uses_stop_start(v.as_str());
            *cache = Some(stop_start);
            Ok(stop_start)
        },
        Err(e) => Err(e),
    }
}

/// The flavour is probed at most once per client: after a successful probe
/// every later request answers from the cache with that same flavour and
/// asks the server nothing, while after a failed query the next request
/// probes again.
pub proof fn lemma_probe_once(version: Seq<char>)
    ensures
        flavour_step_spec(after_probe(None, Some(version))) == FlavourStep::Known(
            uses_stop_start_spec(version),
        ),
        flavour_step_spec(after_probe(None, None)) == FlavourStep::Probe,
{
}

/// qBittorrent answers a login with 200 and the body "Ok." on success and
/// "Fails." on bad credentials.
pub fn login_accepted(body: &str) -> (ok: bool)
    ensures
        ok == (trim_ws(body@) == "Ok."@),
{
    let raw = chars_of(body);
    let t = trim_chars(&raw);
    let ok = chars_of("Ok.");
    chars_eq(&t, &ok)
}

} // verus!

verus! {

/// The outcome of a login: accepted, or an authentication failure carrying
/// what the server said.
pub fn login_result(body: &str) -> (r: crate::error::Result<()>)
    ensures
        r is Ok <==> trim_ws(body@) == "Ok."@,
        r matches Err(e) ==> e is Auth && e->Auth_service == "qbittorrent" && e->detail@
            == crate::api::http::auth_detail_spec(body@),
{
    if login_accepted(body) {
        Ok(())
    } else {
        Err(crate::error::CliarrError::Auth {
            service: "qbittorrent",
            detail: crate::api::http::auth_detail(body),
        })
    }
}

/// The endpoint for pausing (`stop` on WebAPI 2.11 and later).
pub fn pause_path(stop_start: bool) -> (r: &'static str)
    ensures
        r@ == (if stop_start {
            "/api/v2/torrents/stop"@
        } else {
            "/api/v2/torrents/pause"@
        }),
{
    if stop_start {
        "/api/v2/torrents/stop"
    } else {
        "/api/v2/torrents/pause"
    }
}

/// The endpoint for resuming (`start` on WebAPI 2.11 and later).
pub fn resume_path(stop_start: bool) -> (r: &'static str)
    ensures
        r@ == (if stop_start {
            "/api/v2/torrents/start"@
        } else {
            "/api/v2/torrents/resume"@
        }),
{
    if stop_start {
        "/api/v2/torrents/start"
    } else {
        "/api/v2/torrents/resume"
    }
}

/// The `hashes` form field: hashes joined by `|`.
pub fn hashes_field(hashes: &[String]) -> (r: String)
    ensures
        r@ == crate::text::joined(crate::text::string_views(hashes@), "|"@),
{
    crate::text::join_strings(hashes, "|")
}

} // verus!
