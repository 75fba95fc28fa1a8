//! Self-update against GitHub Releases and the passive daily update check:
//! release lookup, version comparison, checksum handling and cache staleness.
use vstd::prelude::*;

use crate::api::http::response_error;
use crate::error::{CliarrError, Result};
use crate::text::{
    ascii_lower_seq, chars_eq, chars_of, chars_starts_with, dec, dec_chars, leading_end,
    lower_ascii_chars, push_chars, push_str, string_of, sub_chars, trim_start_pat, CharPat,
};

verus! {

pub const GITHUB_API: &'static str = "https://api.github.com";

pub const REPO: &'static str = "ChrisThoma/cliarr";

/// The version of this build.
pub const CURRENT_VERSION: &'static str = "0.1.0";

pub const CHECKSUMS_ASSET: &'static str = "SHA256SUMS";

/// Seconds between passive update checks (24 hours).
pub const CHECK_INTERVAL_SECS: u64 = 86400;

pub struct Asset {
    pub name: String,
    pub browser_download_url: String,
}

pub struct Release {
    pub tag_name: String,
    pub assets: Vec<Asset>,
}

pub open spec fn first_named(assets: Seq<Asset>, name: Seq<char>, i: int) -> bool {
    0 <= i < assets.len() && assets[i].name@ == name && forall|j: int|
        0 <= j < i ==> (#[trigger] assets[j]).name@ != name
}

impl Release {
    /// The first asset with the given name.
    pub fn asset(&self, name: &str) -> (r: Option<&Asset>)
        ensures
            r is None <==> forall|i: int|
                0 <= i < self.assets@.len() ==> (#[trigger] self.assets@[i]).name@ != name@,
            r matches Some(a) ==> exists|i: int|
                first_named(self.assets@, name@, i) && *a == self.assets@[i],
    {
        let want = chars_of(name);
        let mut i: usize = 0;
        while i < self.assets.len()
            invariant
                0 <= i <= self.assets@.len(),
                want@ == name@,
                forall|j: int| 0 <= j < i ==> (#[trigger] self.assets@[j]).name@ != name@,
            decreases self.assets@.len() - i,
        {
            let a = &self.assets[i];
            let have = chars_of(a.name.as_str());
            if chars_eq(&have, &want) {
                assert(first_named(self.assets@, name@, i as int));
                return Some(a);
            }
            i = i + 1;
        }
        None
    }

    /// Tag without its leading `v`s.
    pub fn version(&self) -> (v: &str)
        ensures
            v@ == trim_start_pat(self.tag_name@, CharPat::Char('v')),
    {
        let cs = chars_of(self.tag_name.as_str());
        let k = leading_end(&cs, CharPat::Char('v'));
        let n = cs.len();
        let v = self.tag_name.as_str().substring_char(k, n);
        assert(cs@.skip(k as int) =~= cs@.subrange(k as int, n as int));
        v
    }
}

/// Release asset name for a target triple: `cliarr-<target>`, plus `.exe`
/// on Windows targets.
pub open spec fn asset_name_spec(target: Seq<char>) -> Seq<char> {
    if crate::text::contains_seq(target, "windows"@) {
        "cliarr-"@ + target + ".exe"@
    } else {
        "cliarr-"@ + target
    }
}

pub fn asset_name(target: &str) -> (n: String)
    ensures
        n@ == asset_name_spec(target@),
{
    let t = chars_of(target);
    let windows = chars_of("windows");
    let mut out = chars_of("cliarr-");
    push_chars(&mut out, &t);
    if crate::text::chars_contains(&t, &windows) {
        push_str(&mut out, ".exe");
    }
    string_of(&out)
}

} // verus!

verus! {

/// A line as `str::lines` yields it: a trailing "\r" goes with its "\n".
pub open spec fn strip_cr(line: Seq<char>) -> Seq<char> {
    if line.len() > 0 && line.last() == '\r' {
        line.drop_last()
    } else {
        line
    }
}

/// The lowercased hash of a `<hex>  <name>` line when the file is `name`
/// (a `*` binary-mode marker before the file name is ignored).
pub open spec fn line_entry(line: Seq<char>, name: Seq<char>) -> Option<Seq<char>> {
    match crate::text::next_word(line) {
        None => None,
        Some((hash, rest)) => match crate::text::next_word(rest) {
            None => None,
            Some((file, _)) => if trim_start_pat(file, CharPat::Char('*')) == name {
                Some(ascii_lower_seq(hash))
            } else {
                None
            },
        },
    }
}

/// The entry for `name` on the first line of a `sha256sum` listing that has one.
pub open spec fn checksum_spec(sums: Seq<char>, name: Seq<char>) -> Option<Seq<char>>
    decreases sums.len(),
{
    if sums.len() == 0 {
        None
    } else {
        let k = crate::text::char_index(sums, '\n') as int;
        let line = if k < sums.len() {
            strip_cr(sums.take(k))
        } else {
            sums
        };
        match line_entry(line, name) {
            Some(h) => Some(h),
            None => if k < sums.len() {
                checksum_spec(sums.skip(k + 1), name)
            } else {
                None
            },
        }
    }
}

pub open spec fn opt_string_view(o: Option<String>) -> Option<Seq<char>> {
    match o {
        Some(s) => Some(s@),
        None => None,
    }
}

fn line_entry_exec(line: &[char], name: &[char]) -> (r: Option<String>)
    ensures
        opt_string_view(r) == line_entry(line@, name@),
{
    let (hash, rest) = match crate::text::next_word_exec(line) {
        None => return None,
        Some(p) => p,
    };
    let (file, _) = match crate::text::next_word_exec(&rest) {
        None => return None,
        Some(p) => p,
    };
    let f = crate::text::trim_start_chars(&file, CharPat::Char('*'));
    if chars_eq(&f, name) {
        Some(string_of(&lower_ascii_chars(&hash)))
    } else {
        None
    }
}

/// Expected hex digest for `name` from a `sha256sum`-format checksums file
/// (`<hex>  <name>`, optional `*` binary-mode marker before the name).
pub fn checksum_for(sums: &str, name: &str) -> (r: Option<String>)
    ensures
        opt_string_view(r) == checksum_spec(sums@, name@),
{
    let cs = chars_of(sums);
    let want = chars_of(name);
    let mut pos: usize = 0;
    assert(cs@.skip(0) =~= cs@);
    while pos < cs.len()
        invariant
            0 <= pos <= cs@.len(),
            cs@ == sums@,
            want@ == name@,
            checksum_spec(sums@, name@) == checksum_spec(cs@.skip(pos as int), name@),
        decreases cs@.len() - pos,
    {
        let ghost rest = cs@.skip(pos as int);
        let k = crate::text::find_char(&cs, pos, '\n');
        let mut line = sub_chars(&cs, pos, k);
        assert(line@ =~= rest.take(k - pos));
        if k < cs.len() && line.len() > 0 && line[line.len() - 1] == '\r' {
            line.pop();
        }
        if k == cs.len() {
            assert(rest.take(k - pos) =~= rest);
        }
        let e = line_entry_exec(&line, &want);
        if e.is_some() {
            return e;
        }
        if k == cs.len() {
            return None;
        }
        assert(rest.skip(k - pos + 1) =~= cs@.skip(k + 1));
        pos = k + 1;
    }
    assert(cs@.skip(pos as int).len() == 0);
    None
}

} // verus!

verus! {

/// SHA-256 of a byte string (FIPS 180-4).
pub uninterp spec fn sha256_spec(data: Seq<u8>) -> Seq<u8>;

/// `sha2::Sha256::digest`: the 32-byte SHA-256 digest, named by `sha256_spec`.
#[verifier::external_body]
pub(crate) fn sha256_digest(data: &[u8]) -> (d: Vec<u8>)
    ensures
        d@ == sha256_spec(data@),
        d@.len() == 32,
{
    <sha2::Sha256 as sha2::Digest>::digest(data).to_vec()
}

pub open spec fn hex_digit(n: nat) -> char {
    if n < 10 {
        crate::text::digit_char(n)
    } else {
        ((n - 10 + 97) as u32) as char
    }
}

/// Lowercase hexadecimal, two digits per byte (`{:x}` of a digest).
pub open spec fn hex_lower(bytes: Seq<u8>) -> Seq<char>
    decreases bytes.len(),
{
    if bytes.len() == 0 {
        Seq::empty()
    } else {
        seq![hex_digit((bytes[0] / 16) as nat), hex_digit((bytes[0] % 16) as nat)] + hex_lower(
            bytes.drop_first(),
        )
    }
}

/// Each of the sixteen digit values has its own digit.
proof fn lemma_hex_digit_injective(a: nat, b: nat)
    requires
        a < 16,
        b < 16,
        hex_digit(a) == hex_digit(b),
    ensures
        a == b,
{
    let ca = hex_digit(a) as u32;
    let cb = hex_digit(b) as u32;
    assert(ca == (if a < 10 { a + 48 } else { a + 87 }));
    assert(cb == (if b < 10 { b + 48 } else { b + 87 }));
}

/// Two digits per byte.
pub proof fn lemma_hex_lower_len(bytes: Seq<u8>)
    ensures
        hex_lower(bytes).len() == 2 * bytes.len(),
    decreases bytes.len(),
{
    if bytes.len() > 0 {
        lemma_hex_lower_len(bytes.drop_first());
    }
}

/// Lowercase hex tells byte strings apart: equal digits come only from
/// equal bytes.
pub proof fn lemma_hex_lower_injective(a: Seq<u8>, b: Seq<u8>)
    requires
        hex_lower(a) == hex_lower(b),
    ensures
        a == b,
    decreases a.len(),
{
    lemma_hex_lower_len(a);
    lemma_hex_lower_len(b);
    if a.len() > 0 {
        let ha = hex_lower(a);
        let hb = hex_lower(b);
        assert(ha[0] == hb[0] && ha[1] == hb[1]);
        lemma_hex_digit_injective((a[0] / 16) as nat, (b[0] / 16) as nat);
        lemma_hex_digit_injective((a[0] % 16) as nat, (b[0] % 16) as nat);
        assert(a[0] == b[0]);
        assert(hex_lower(a.drop_first()) =~= ha.skip(2));
        assert(hex_lower(b.drop_first()) =~= hb.skip(2));
        lemma_hex_lower_injective(a.drop_first(), b.drop_first());
        assert(a =~= seq![a[0]] + a.drop_first());
        assert(b =~= seq![b[0]] + b.drop_first());
    }
}

fn hex_digit_exec(n: u8) -> (c: char)
    requires
        n < 16,
    ensures
        c == hex_digit(n as nat),
{
    if n < 10 {
        let d = dec_chars(n as u64);
        assert(dec(n as nat) =~= seq![crate::text::digit_char(n as nat)]);
        d[0]
    } else {
        let c = crate::text::char_from_ascii_code(n - 10 + 97);
        c
    }
}

pub fn hex_lower_exec(bytes: &[u8]) -> (out: Vec<char>)
    ensures
        out@ == hex_lower(bytes@),
{
    let mut out: Vec<char> = Vec::new();
    let mut i: usize = bytes.len();
    let ghost n = bytes@.len();
    let mut acc: Vec<char> = Vec::new();
    assert(bytes@.skip(n as int) =~= Seq::<u8>::empty());
    while i > 0
        invariant
            0 <= i <= bytes@.len(),
            acc@ == hex_lower(bytes@.skip(i as int)),
        decreases i,
    {
        i = i - 1;
        let b = bytes[i];
        let mut two: Vec<char> = Vec::new();
        two.push(hex_digit_exec(b / 16));
        two.push(hex_digit_exec(b % 16));
        push_chars(&mut two, &acc);
        assert(bytes@.skip(i as int).drop_first() =~= bytes@.skip(i + 1));
        assert(two@ =~= hex_lower(bytes@.skip(i as int)));
        acc = two;
    }
    assert(bytes@.skip(0) =~= bytes@);
    out = acc;
    out
}

pub open spec fn mismatch_message(expected: Seq<char>, actual: Seq<char>) -> Seq<char> {
    "checksum mismatch for downloaded binary (expected "@ + expected + ", got "@ + actual
        + "); aborting update"@
}

/// Accept `bytes` only when their SHA-256 matches `expected_hex` (any case).
pub fn verify_checksum(bytes: &[u8], expected_hex: &str) -> (r: Result<()>)
    ensures
        r is Ok <==> hex_lower(sha256_spec(bytes@)) == ascii_lower_seq(expected_hex@),
        r matches Err(e) ==> e is Other && e->Other_0@ == mismatch_message(
            expected_hex@,
            hex_lower(sha256_spec(bytes@)),
        ),
{
    let digest = sha256_digest(bytes);
    let actual = hex_lower_exec(&digest);
    let exp = chars_of(expected_hex);
    let want = lower_ascii_chars(&exp);
    if chars_eq(&actual, &want) {
        Ok(())
    } else {
        let mut msg = chars_of("checksum mismatch for downloaded binary (expected ");
        push_chars(&mut msg, &exp);
        push_str(&mut msg, ", got ");
        push_chars(&mut msg, &actual);
        push_str(&mut msg, "); aborting update");
        assert(msg@ =~= mismatch_message(expected_hex@, actual@));
        Err(CliarrError::Other(string_of(&msg)))
    }
}

} // verus!

verus! {

/// A version of the semver crate, carried opaquely.
#[verifier::external_type_specification]
#[verifier::external_body]
pub struct ExSemver(semver::Version);

/// Whether the semver crate parses `s` as a version.
pub uninterp spec fn semver_parses(s: Seq<char>) -> bool;

/// Whether the version parsed from `a` is greater than the one parsed from
/// `b` in the semver crate's (derived, total) order.
pub uninterp spec fn semver_newer(a: Seq<char>, b: Seq<char>) -> bool;

/// `Display` of the version parsed from `s`.
pub uninterp spec fn semver_display(s: Seq<char>) -> Seq<char>;

/// A parsed semantic version; its view is the text it was parsed from.
pub struct ReleaseVersion {
    inner: semver::Version,
    text: Ghost<Seq<char>>,
}

impl View for ReleaseVersion {
    type V = Seq<char>;

    closed spec fn view(&self) -> Seq<char> {
        self.text@
    }
}

/// `semver::Version::parse`.
#[verifier::external_body]
fn parse_version(s: &str) -> (r: Option<ReleaseVersion>)
    ensures
        r is Some <==> semver_parses(s@),
        r matches Some(v) ==> v@ == s@,
{
    semver::Version::parse(s).ok().map(|inner| ReleaseVersion { inner, text: Ghost(s@) })
}

/// `>` on `semver::Version` (derived `Ord`: a strict total order, so no
/// version is newer than itself and newer-than is asymmetric).
#[verifier::external_body]
fn version_gt(a: &ReleaseVersion, b: &ReleaseVersion) -> (r: bool)
    ensures
        r == semver_newer(a@, b@),
        a@ == b@ ==> !r,
        r ==> !semver_newer(b@, a@),
{
    a.inner > b.inner
}

/// `Display` of `semver::Version`, named by `semver_display`.
#[verifier::external_body]
fn display_version(v: &ReleaseVersion) -> (s: String)
    ensures
        s@ == semver_display(v@),
{
    v.inner.to_string()
}

impl ReleaseVersion {
    /// The version as text, e.g. `0.2.0`.
    pub fn to_string(&self) -> (s: String)
        ensures
            s@ == semver_display(self@),
    {
        display_version(self)
    }
}

/// The latest version if `tag` (with or without a leading `v`) is newer than
/// `current`; None when up to date or either side is unparseable.
pub fn is_newer(current: &str, tag: &str) -> (r: Option<ReleaseVersion>)
    ensures
        ({
            let t = trim_start_pat(tag@, CharPat::Char('v'));
            &&& r is Some <==> semver_parses(current@) && semver_parses(t) && semver_newer(
                t,
                current@,
            )
            &&& r matches Some(v) ==> v@ == t
        }),
{
    let cur = parse_version(current)?;
    let cs = chars_of(tag);
    let k = leading_end(&cs, CharPat::Char('v'));
    let n = cs.len();
    let t = tag.substring_char(k, n);
    assert(cs@.skip(k as int) =~= cs@.subrange(k as int, n as int));
    let latest = parse_version(t)?;
    if version_gt(&latest, &cur) {
        Some(latest)
    } else {
        None
    }
}

// ---- passive daily check ----------------------------------------------

pub struct CheckCache {
    /// Unix timestamp of the last completed check attempt.
    pub checked_at: u64,
    /// Latest known release version (no `v` prefix).
    pub latest: String,
}

impl CheckCache {
    /// More than a day since the last check; a timestamp in the future
    /// (clock skew) never reads as stale.
    pub fn is_stale(&self, now: u64) -> (r: bool)
        ensures
            r == (now > self.checked_at && now - self.checked_at > CHECK_INTERVAL_SECS),
    {
        let elapsed = if now > self.checked_at {
            now - self.checked_at
        } else {
            0
        };
        elapsed > CHECK_INTERVAL_SECS
    }
}

/// Seconds since the Unix epoch by the system clock (0 before the epoch).
#[verifier::external_body]
pub fn now_unix() -> u64 {
    std::time::SystemTime::now().duration_since(std::time::UNIX_EPOCH).map(|d| d.as_secs()).unwrap_or(
        0,
    )
}

/// The version to record after a refresh attempt: the fetched release's;
/// the running version when no release exists; else the previously cached
/// answer (or the running version when there is none).
pub open spec fn latest_after_refresh_spec(
    fetched: core::result::Result<Seq<char>, bool>,
    cached: Option<Seq<char>>,
) -> Seq<char> {
    match fetched {
        Ok(v) => v,
        Err(no_releases) => if no_releases {
            CURRENT_VERSION@
        } else {
            match cached {
                Some(c) => c,
                None => CURRENT_VERSION@,
            }
        },
    }
}

pub open spec fn fetch_outcome(fetched: Result<Release>) -> core::result::Result<Seq<char>, bool> {
    match fetched {
        Ok(rel) => Ok(trim_start_pat(rel.tag_name@, CharPat::Char('v'))),
        Err(e) => Err(e is Other),
    }
}

pub fn latest_after_refresh(fetched: &Result<Release>, cached: &Option<CheckCache>) -> (v: String)
    ensures
        v@ == latest_after_refresh_spec(
            fetch_outcome(*fetched),
            match cached {
                Some(c) => Some(c.latest@),
                None => None,
            },
        ),
{
    match fetched {
        Ok(release) => string_of(&chars_of(release.version())),
        Err(CliarrError::Other(_)) => string_of(&chars_of(CURRENT_VERSION)),
        Err(_) => match cached {
            Some(c) => string_of(&chars_of(c.latest.as_str())),
            None => string_of(&chars_of(CURRENT_VERSION)),
        },
    }
}

pub open spec fn no_releases_message() -> Seq<char> {
    "no releases published yet at https://github.com/"@ + REPO@ + "/releases"@
}

/// How a response to the latest-release request fails: 404 means nothing
/// has been published; any other non-2xx status is the usual HTTP error.
pub fn latest_release_failure(status: u16, body: &str) -> (r: Option<CliarrError>)
    ensures
        status == 404 ==> (r matches Some(e) && e is Other && e->Other_0@ == no_releases_message()),
        status != 404 && 200 <= status < 300 ==> r is None,
        status != 404 && !(200 <= status < 300) ==> (r matches Some(e) && (if crate::api::http::is_auth_status(status) {
            e is Auth && e->Auth_service == "GitHub" && e->detail@ == crate::api::http::auth_detail_spec(body@)
        } else {
            e is Api && e->Api_service == "GitHub" && e->status == status
                && e->Api_body@ == crate::api::http::truncated(crate::text::trim_ws(body@))
        })),
{
    if status == 404 {
        let mut m = chars_of("no releases published yet at https://github.com/");
        push_str(&mut m, REPO);
        push_str(&mut m, "/releases");
        assert(m@ =~= no_releases_message());
        return Some(CliarrError::Other(string_of(&m)));
    }
    if 200 <= status && status < 300 {
        return None;
    }
    Some(response_error("GitHub", status, body))
}

} // verus!

verus! {

pub open spec fn no_binary_message(tag: Seq<char>, target: Seq<char>, name: Seq<char>) -> Seq<char> {
    "release "@ + tag + " has no prebuilt binary for "@ + target + " (asset "@ + name
        + "); update with `cargo install --git https://github.com/"@ + REPO@ + "`"@
}

pub open spec fn no_sums_message(tag: Seq<char>) -> Seq<char> {
    "release "@ + tag + " has no "@ + CHECKSUMS_ASSET@ + " asset"@
}

/// Where an update downloads from.
pub struct InstallSources {
    /// The binary's asset name.
    pub name: String,
    pub binary_url: String,
    pub sums_url: String,
}

/// The binary for `target` and the checksums file of a release; either
/// missing is an error naming what is missing.
pub fn install_sources(release: &Release, target: &str) -> (r: Result<InstallSources>)
    ensures
        ({
            let name = asset_name_spec(target@);
            let has_bin = exists|i: int| first_named(release.assets@, name, i);
            let has_sums = exists|i: int| first_named(release.assets@, CHECKSUMS_ASSET@, i);
            &&& !has_bin ==> (r matches Err(e) && e is Other && e->Other_0@ == no_binary_message(
                release.tag_name@,
                target@,
                name,
            ))
            &&& has_bin && !has_sums ==> (r matches Err(e) && e is Other && e->Other_0@
                == no_sums_message(release.tag_name@))
            &&& r is Ok <==> has_bin && has_sums
            &&& r matches Ok(s) ==> s.name@ == name && (exists|i: int|
                first_named(release.assets@, name, i) && s.binary_url@
                    == release.assets@[i].browser_download_url@) && (exists|j: int|
                first_named(release.assets@, CHECKSUMS_ASSET@, j) && s.sums_url@
                    == release.assets@[j].browser_download_url@)
        }),
{
    let name = asset_name(target);
    let bin = match release.asset(name.as_str()) {
        Some(a) => a,
        None => {
            proof {
                assert forall|i: int| !first_named(release.assets@, name@, i) by {
                    if 0 <= i < release.assets@.len() {
                        assert(release.assets@[i].name@ != name@);
                    }
                }
            }
            let mut m = chars_of("release ");
            push_str(&mut m, release.tag_name.as_str());
            push_str(&mut m, " has no prebuilt binary for ");
            push_str(&mut m, target);
            push_str(&mut m, " (asset ");
            push_str(&mut m, name.as_str());
            push_str(&mut m, "); update with `cargo install --git https://github.com/");
            push_str(&mut m, REPO);
            push_str(&mut m, "`");
            return Err(CliarrError::Other(string_of(&m)));
        },
    };
    let sums = match release.asset(CHECKSUMS_ASSET) {
        Some(a) => a,
        None => {
            proof {
                assert forall|i: int| !first_named(release.assets@, CHECKSUMS_ASSET@, i) by {
                    if 0 <= i < release.assets@.len() {
                        assert(release.assets@[i].name@ != CHECKSUMS_ASSET@);
                    }
                }
            }
            let mut m = chars_of("release ");
            push_str(&mut m, release.tag_name.as_str());
            push_str(&mut m, " has no ");
            push_str(&mut m, CHECKSUMS_ASSET);
            push_str(&mut m, " asset");
            return Err(CliarrError::Other(string_of(&m)));
        },
    };
    Ok(InstallSources {
        name,
        binary_url: string_of(&chars_of(bin.browser_download_url.as_str())),
        sums_url: string_of(&chars_of(sums.browser_download_url.as_str())),
    })
}

pub open spec fn no_entry_message(name: Seq<char>) -> Seq<char> {
    CHECKSUMS_ASSET@ + " has no entry for "@ + name
}

/// The expected digest of the binary, or the error for a checksums file
/// that does not list it.
pub fn expected_checksum(sums: &str, name: &str) -> (r: Result<String>)
    ensures
        match checksum_spec(sums@, name@) {
            Some(d) => r matches Ok(s) && s@ == d,
            None => r matches Err(e) && e is Other && e->Other_0@ == no_entry_message(name@),
        },
{
    match checksum_for(sums, name) {
        Some(d) => Ok(d),
        None => {
            let mut m = chars_of(CHECKSUMS_ASSET);
            push_str(&mut m, " has no entry for ");
            push_str(&mut m, name);
            Err(CliarrError::Other(string_of(&m)))
        },
    }
}

pub open spec fn available_notice_spec(latest: Seq<char>) -> Seq<char> {
    "cliarr v"@ + latest + " is available (you have v"@ + CURRENT_VERSION@
        + "); run `cliarr update`"@
}

/// The notice printed when a newer release exists.
pub fn available_notice(latest: &ReleaseVersion) -> (r: String)
    ensures
        r@ == available_notice_spec(semver_display(latest@)),
{
    let mut m = chars_of("cliarr v");
    let v = latest.to_string();
    push_str(&mut m, v.as_str());
    push_str(&mut m, " is available (you have v");
    push_str(&mut m, CURRENT_VERSION);
    push_str(&mut m, "); run `cliarr update`");
    string_of(&m)
}

pub open spec fn up_to_date_spec() -> Seq<char> {
    "cliarr v"@ + CURRENT_VERSION@ + " is up to date"@
}

pub fn up_to_date_notice() -> (r: String)
    ensures
        r@ == up_to_date_spec(),
{
    let mut m = chars_of("cliarr v");
    push_str(&mut m, CURRENT_VERSION);
    push_str(&mut m, " is up to date");
    string_of(&m)
}

} // verus!
