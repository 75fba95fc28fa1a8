//! URL joining and the status/body → error classification shared by every
//! service client.
use vstd::prelude::*;

use crate::error::CliarrError;
use crate::text::{
    utf8_of, chars_of, push_chars, string_of, sub_chars, trim_chars, trim_end_chars, trim_start_chars,
    trim_end_pat, trim_start_pat, trim_ws, CharPat,
};

verus! {

/// A parsed URL of the url crate, carried opaquely.
#[verifier::external_type_specification]
#[verifier::external_body]
pub struct ExUrl(url::Url);

/// What `url::Url::parse` makes of `s`: the serialization (`as_str`) of
/// the absolute URL it parses, or nothing when it refuses the text.
pub uninterp spec fn url_parse(s: Seq<char>) -> Option<Seq<char>>;

/// Whether the url crate parses `s` as an absolute URL.
pub open spec fn url_parses(s: Seq<char>) -> bool {
    url_parse(s) is Some
}

/// The serialization of the URL parsed from `s` (empty when it fails).
pub open spec fn url_serialization(s: Seq<char>) -> Seq<char> {
    match url_parse(s) {
        Some(t) => t,
        None => Seq::empty(),
    }
}

/// The path component (`path()`) of the URL whose serialization is `s`.
pub uninterp spec fn url_path_of(s: Seq<char>) -> Seq<char>;

/// The serialization after `set_path(p)` on the URL whose serialization is `s`.
pub uninterp spec fn url_with_path(s: Seq<char>, p: Seq<char>) -> Seq<char>;

/// A parsed absolute URL; its view is its serialization.
pub struct ServiceUrl {
    url: url::Url,
    text: Ghost<Seq<char>>,
}

impl View for ServiceUrl {
    type V = Seq<char>;

    closed spec fn view(&self) -> Seq<char> {
        self.text@
    }
}

/// `url::Url::parse`: whether it succeeds, and the serialization of the
/// URL it returns, are named by `url_parse` of the input text.
#[verifier::external_body]
pub(crate) fn parse_url(s: &str) -> (r: core::result::Result<ServiceUrl, url::ParseError>)
    ensures
        r is Ok <==> url_parse(s@) is Some,
        r matches Ok(u) ==> url_parse(s@) == Some(u@),
{
    url::Url::parse(s).map(|url| ServiceUrl { url, text: Ghost(url_serialization(s@)) })
}

/// `url::Url::path`, named by `url_path_of` of the serialization.
#[verifier::external_body]
fn url_path(u: &ServiceUrl) -> (p: String)
    ensures
        p@ == url_path_of(u@),
{
    u.url.path().to_string()
}

/// `url::Url::set_path`, named by `url_with_path`. The url crate panics when
/// the serialization up to the end of the new path outgrows `u32` bytes;
/// that part is at most the old serialization, one added `/`, and each
/// byte of `p` percent-encoded into at most three, which the bound keeps
/// within `u32`.
#[verifier::external_body]
fn url_set_path(u: &mut ServiceUrl, p: &str)
    requires
        set_path_fits(old(u)@, p@),
    ensures
        final(u)@ == url_with_path(old(u)@, p@),
{
    u.url.set_path(p)
}

/// The serialization after `query_pairs_mut().append_pair(k, v)` on the URL
/// whose serialization is `s`.
pub uninterp spec fn url_with_query_pair(s: Seq<char>, k: Seq<char>, v: Seq<char>) -> Seq<char>;

/// The url crate's query serializer stays within its `u32` serialization
/// limit: the serialization, `?` or `&`, `=`, and each byte of the pair
/// form-urlencoded into at most three.
pub open spec fn query_pair_fits(serialization: Seq<char>, k: Seq<char>, v: Seq<char>) -> bool {
    utf8_of(serialization).len() + 3 * (utf8_of(k).len() + utf8_of(v).len()) + 2 <= u32::MAX
}

/// `url::Url::query_pairs_mut().append_pair`, named by `url_with_query_pair`.
/// The url crate panics when the serialization before the fragment outgrows
/// `u32` bytes, which the bound rules out.
#[verifier::external_body]
pub(crate) fn append_query_pair(u: &mut ServiceUrl, k: &str, v: &str)
    requires
        query_pair_fits(old(u)@, k@, v@),
    ensures
        final(u)@ == url_with_query_pair(old(u)@, k@, v@),
{
    u.url.query_pairs_mut().append_pair(k, v);
}

impl ServiceUrl {
    /// `url::Url::as_str`: the serialization.
    #[verifier::external_body]
    pub fn as_str(&self) -> (s: &str)
        ensures
            s@ == self@,
    {
        self.url.as_str()
    }

    /// The underlying `url::Url`, for handing to an HTTP client.
    #[verifier::external_body]
    pub fn into_url(self) -> url::Url {
        self.url
    }
}

/// The path `join_url` installs: the base's path without trailing slashes,
/// one slash, then `path` without leading slashes.
pub open spec fn joined_path(base_path: Seq<char>, path: Seq<char>) -> Seq<char> {
    trim_end_pat(base_path, CharPat::Char('/')) + seq!['/'] + trim_start_pat(path, CharPat::Char('/'))
}

/// The url crate's `set_path` stays within its `u32` serialization limit,
/// counting each byte of the new path as percent-encoded.
pub open spec fn set_path_fits(serialization: Seq<char>, path: Seq<char>) -> bool {
    utf8_of(serialization).len() + 3 * utf8_of(path).len() + 1 <= u32::MAX
}

/// Join `path` onto `base`, preserving any path prefix in the base URL
/// (reverse proxies often serve services under e.g. `/radarr`). A URL that
/// could outgrow the url crate's 4 GiB serialization limit, its new path
/// counted as fully percent-encoded, is refused.
pub fn join_url(base: &str, path: &str) -> (r: core::result::Result<ServiceUrl, CliarrError>)
    ensures
        ({
            let b = trim_end_pat(base@, CharPat::Char('/'));
            let s = url_serialization(b);
            let p = joined_path(url_path_of(s), path@);
            &&& r is Ok <==> url_parses(b) && set_path_fits(s, p)
            &&& r matches Ok(u) ==> u@ == url_with_path(s, p)
            &&& !url_parses(b) ==> (r matches Err(e) && e is Url)
            &&& url_parses(b) && !set_path_fits(s, p) ==> (r matches Err(e) && e is Other)
        }),
{
    let base_cs = chars_of(base);
    let trimmed = trim_end_chars(&base_cs, CharPat::Char('/'));
    let trimmed_s = string_of(&trimmed);
    let mut b = match parse_url(trimmed_s.as_str()) {
        Ok(u) => u,
        Err(e) => return Err(CliarrError::Url(e)),
    };
    let bp = url_path(&b);
    let bp_cs = chars_of(bp.as_str());
    let mut joined = trim_end_chars(&bp_cs, CharPat::Char('/'));
    joined.push('/');
    let path_cs = chars_of(path);
    let tail = trim_start_chars(&path_cs, CharPat::Char('/'));
    push_chars(&mut joined, &tail);
    let joined_s = string_of(&joined);
    assert(joined@ =~= joined_path(url_path_of(b@), path@));
    let cur_bytes = b.as_str().as_bytes().len() as u64;
    let path_bytes = joined_s.as_str().as_bytes().len() as u64;
    let fits = cur_bytes <= 0xffff_ffff && path_bytes <= 0xffff_ffff && cur_bytes + 3 * path_bytes
        + 1 <= 0xffff_ffff;
    if !fits {
        return Err(CliarrError::Other(string_of(&chars_of("URL too long"))));
    }
    url_set_path(&mut b, joined_s.as_str());
    Ok(b)
}

/// At most 300 characters; longer text keeps its first 300 and gains '…'.
pub open spec fn truncated(s: Seq<char>) -> Seq<char> {
    if s.len() > 300 {
        s.take(300).push('…')
    } else {
        s
    }
}

/// A capped body is never longer than 301 characters, and a cut one ends
/// with the ellipsis.
pub proof fn lemma_truncated_len(s: Seq<char>)
    ensures
        truncated(s).len() <= 301,
        truncated(s).len() <= s.len(),
        s.len() > 300 ==> truncated(s).last() == '…' && truncated(s).len() == 301,
        s.len() <= 300 ==> truncated(s) == s,
{
}

/// Cap an error body at 300 characters plus an ellipsis.
pub fn truncate(s: &str) -> (out: String)
    ensures
        out@ == truncated(s@),
{
    let cs = chars_of(s);
    if cs.len() > 300 {
        let mut head = sub_chars(&cs, 0, 300);
        head.push('…');
        string_of(&head)
    } else {
        string_of(&cs)
    }
}

pub open spec fn auth_hint() -> Seq<char> {
    "check the API key/credentials in your config"@
}

/// Detail for an auth failure: the server's own (trimmed, capped) message
/// when it said something, else the credentials hint.
pub open spec fn auth_detail_spec(body: Seq<char>) -> Seq<char> {
    if trim_ws(body).len() == 0 {
        auth_hint()
    } else {
        truncated(trim_ws(body))
    }
}

pub fn auth_detail(body: &str) -> (d: String)
    ensures
        d@ == auth_detail_spec(body@),
{
    let cs = chars_of(body);
    let t = trim_chars(&cs);
    if t.len() == 0 {
        let h = "check the API key/credentials in your config";
        let out = string_of(&chars_of(h));
        out
    } else {
        let ts = string_of(&t);
        truncate(ts.as_str())
    }
}

/// 401 and 403 are authentication failures.
pub open spec fn is_auth_status(status: u16) -> bool {
    status == 401 || status == 403
}

/// Status + body → error, for a non-success response.
pub fn response_error(service: &'static str, status: u16, body: &str) -> (e: CliarrError)
    ensures
        is_auth_status(status) ==> e == (CliarrError::Auth {
            service,
            detail: e->detail,
        }) && e->detail@ == auth_detail_spec(body@),
        !is_auth_status(status) ==> e == (CliarrError::Api {
            service,
            status,
            body: e->body,
        }) && e->body@ == truncated(trim_ws(body@)),
{
    if status == 401 || status == 403 {
        return CliarrError::Auth { service, detail: auth_detail(body) };
    }
    let cs = chars_of(body);
    let t = trim_chars(&cs);
    let ts = string_of(&t);
    CliarrError::Api { service, status, body: truncate(ts.as_str()) }
}

} // verus!

verus! {

/// `User-Agent` of every request.
pub const USER_AGENT: &'static str = "cliarr/0.1.0";

/// Seconds allowed to establish a connection.
pub const CONNECT_TIMEOUT_SECS: u64 = 5;

/// Seconds allowed for a whole request.
pub const REQUEST_TIMEOUT_SECS: u64 = 15;

/// Whether every byte of the UTF-8 text is allowed in an HTTP header value
/// (the http crate's rule: tab, or any byte from 0x20 up except 0x7F; the
/// bytes of a non-ASCII character are all 0x80 or above).
pub open spec fn header_value_ok(s: Seq<char>) -> bool {
    forall|i: int|
        0 <= i < s.len() ==> (s[i] == '\t' || (s[i] as u32 >= 0x20 && s[i] as u32 != 0x7f))
}

/// An HTTP client together with the settings it was built with.
pub struct HttpClient {
    client: reqwest::Client,
    settings: Ghost<(u64, u64, bool, Seq<char>)>,
}

impl HttpClient {
    /// Seconds allowed to establish a connection.
    pub closed spec fn connect_timeout_secs(&self) -> u64 {
        self.settings@.0
    }

    /// Seconds allowed for a whole request.
    pub closed spec fn request_timeout_secs(&self) -> u64 {
        self.settings@.1
    }

    /// Whether cookies are kept between requests.
    pub closed spec fn cookie_store(&self) -> bool {
        self.settings@.2
    }

    /// The `User-Agent` sent with every request.
    pub closed spec fn user_agent(&self) -> Seq<char> {
        self.settings@.3
    }

    /// The reqwest client itself.
    pub closed spec fn client_spec(&self) -> reqwest::Client {
        self.client
    }

    pub fn client(&self) -> (c: &reqwest::Client)
        ensures
            *c == self.client_spec(),
    {
        &self.client
    }

    pub fn into_client(self) -> (c: reqwest::Client)
        ensures
            c == self.client_spec(),
    {
        self.client
    }
}

/// `reqwest::ClientBuilder` with the given connect and total timeouts,
/// cookie store setting and user agent, then `build`. The builder records
/// an error for a user agent that is not a valid header value, which the
/// `requires` rules out; `build` otherwise fails only when its TLS backend
/// cannot initialise (the bundled rustls backend with its built-in roots
/// does not), and that failure would panic here. The settings are recorded
/// as given; nothing else is claimed of the client.
#[verifier::external_body]
fn http_client(connect_secs: u64, total_secs: u64, cookies: bool, user_agent: &str) -> (c:
    HttpClient)
    requires
        header_value_ok(user_agent@),
    ensures
        c.connect_timeout_secs() == connect_secs,
        c.request_timeout_secs() == total_secs,
        c.cookie_store() == cookies,
        c.user_agent() == user_agent@,
{
    let client = reqwest::Client::builder()
        .connect_timeout(std::time::Duration::from_secs(connect_secs))
        .timeout(std::time::Duration::from_secs(total_secs))
        .cookie_store(cookies)
        .user_agent(user_agent)
        .build()
        .expect("failed to build HTTP client");
    HttpClient { client, settings: Ghost((connect_secs, total_secs, cookies, user_agent@)) }
}

/// The shared HTTP client every service client clones: 5 s to connect,
/// 15 s per request, a cookie store (qBittorrent's session cookie), and the
/// `cliarr/<version>` user agent.
pub fn build_client() -> (c: HttpClient)
    ensures
        c.connect_timeout_secs() == CONNECT_TIMEOUT_SECS,
        c.request_timeout_secs() == REQUEST_TIMEOUT_SECS,
        c.cookie_store(),
        c.user_agent() == USER_AGENT@,
{
    proof {
        reveal_strlit("cliarr/0.1.0");
    }
    http_client(CONNECT_TIMEOUT_SECS, REQUEST_TIMEOUT_SECS, true, USER_AGENT)
}

} // verus!
