//! Plain-text renderings shared by the command tables and the TUI.
use vstd::prelude::*;

use crate::text::{dec, dec_chars, pad2, pad2_chars, push_chars, push_str, string_of};

verus! {

/// qBittorrent reports an unknown ETA as 8 640 000 seconds.
pub const ETA_INFINITY: i64 = 8_640_000;

/// `{h}h{mm}m` for ETAs of an hour or more, `{m}m` below that, "—" for
/// none/unknown.
pub open spec fn eta_spec(secs: i64) -> Seq<char> {
    if secs <= 0 || secs >= ETA_INFINITY {
        "—"@
    } else {
        let h = secs / 3600;
        let m = (secs % 3600) / 60;
        if h > 0 {
            dec(h as nat) + "h"@ + pad2(m as int) + "m"@
        } else {
            dec(m as nat) + "m"@
        }
    }
}

/// An ETA of an hour or more shows its whole hours and then the whole
/// minutes left after them, two digits: for any `h >= 1` and `m < 60` with
/// `h*3600 + m*60 <= secs < h*3600 + (m+1)*60`, the text is `{h}h{m:02}m`
/// (5400 seconds read `1h30m`).
pub proof fn lemma_eta_hours(secs: i64, h: nat, m: nat)
    requires
        secs < ETA_INFINITY,
        h >= 1,
        m < 60,
        h * 3600 + m * 60 <= secs < h * 3600 + (m + 1) * 60,
    ensures
        eta_spec(secs) == dec(h) + "h"@ + pad2(m as int) + "m"@,
{
    assert(secs / 3600 == h && (secs % 3600) / 60 == m) by (nonlinear_arith)
        requires
            m < 60,
            h * 3600 + m * 60 <= secs < h * 3600 + (m + 1) * 60,
    {
        assert(secs == h * 3600 + (secs - h * 3600));
        assert(0 <= secs - h * 3600 < 3600);
    }
}

/// A positive ETA under an hour shows its whole minutes: for any `m` with
/// `m*60 <= secs < (m+1)*60 <= 3600`, the text is `{m}m` (600 seconds read
/// `10m`).
pub proof fn lemma_eta_minutes(secs: i64, m: nat)
    requires
        secs > 0,
        m < 60,
        m * 60 <= secs < (m + 1) * 60,
    ensures
        eta_spec(secs) == dec(m) + "m"@,
{
    assert(secs / 3600 == 0 && (secs % 3600) / 60 == m) by (nonlinear_arith)
        requires
            m < 60,
            m * 60 <= secs < (m + 1) * 60,
    {
    }
}

/// An ETA that is not positive, or at or past qBittorrent's "unknown"
/// value, shows a dash; every other ETA shows a number instead.
pub proof fn lemma_eta_unknown(secs: i64)
    ensures
        (secs <= 0 || secs >= ETA_INFINITY) <==> eta_spec(secs) == "—"@,
{
    reveal_strlit("—");
    reveal_strlit("m");
    if 0 < secs < ETA_INFINITY {
        let h = secs / 3600;
        let m = (secs % 3600) / 60;
        if h > 0 {
            let t = dec(h as nat) + "h"@ + pad2(m as int) + "m"@;
            crate::text::lemma_dec_reads_back(h as nat);
            assert(t.len() > 1);
        } else {
            let t = dec(m as nat) + "m"@;
            crate::text::lemma_dec_reads_back(m as nat);
            assert(t.len() > 1);
        }
    }
}

pub fn fmt_eta_secs(secs: i64) -> (s: String)
    ensures
        s@ == eta_spec(secs),
{
    let mut out: Vec<char> = Vec::new();
    if secs <= 0 || secs >= ETA_INFINITY {
        push_str(&mut out, "—");
        return string_of(&out);
    }
    let h = secs / 3600;
    let m = (secs % 3600) / 60;
    if h > 0 {
        let hd = dec_chars(h as u64);
        push_chars(&mut out, &hd);
        push_str(&mut out, "h");
        let md = pad2_chars(m);
        push_chars(&mut out, &md);
        push_str(&mut out, "m");
    } else {
        let md = dec_chars(m as u64);
        push_chars(&mut out, &md);
        push_str(&mut out, "m");
    }
    assert(out@ =~= eta_spec(secs));
    string_of(&out)
}

pub fn check_mark(b: bool) -> (s: &'static str)
    ensures
        s@ == (if b {
            "✓"@
        } else {
            "✗"@
        }),
{
    if b {
        "✓"
    } else {
        "✗"
    }
}

} // verus!
