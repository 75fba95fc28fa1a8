//! Upcoming releases from Radarr and Sonarr, merged into one dated list.
//!
//! Days are handled as chrono's day numbers (`num_days_from_ce`), so that
//! the window test and the choice of the earliest release date are integer
//! comparisons.
use vstd::prelude::*;
use vstd::string::StringSliceAdditionalSpecFns;

use chrono::Datelike;

use crate::api::models::radarr::Movie;
use crate::text::{
    chars_of, dec, i64_chars, int_str, lemma_seq_lt_irrefl, lemma_seq_lt_total,
    lemma_seq_lt_trans, push_chars, push_str, seq_lt, string_of, chars_lt, chars_eq,
};

verus! {

/// One upcoming release: the day it lands (`YYYY-MM-DD`), which service
/// reported it, and what it is.
#[derive(Debug, Clone)]
pub struct CalendarEntry {
    pub date: String,
    pub service: String,
    pub title: String,
    pub detail: String,
}

/// chrono's parse of the whole text `s` as a `NaiveDate` (`YYYY-MM-DD`),
/// as its day number.
pub uninterp spec fn naive_date_days(s: Seq<char>) -> Option<int>;

/// chrono's `Display` of the date with the given day number (`YYYY-MM-DD`),
/// for day numbers chrono can represent.
pub uninterp spec fn date_text(days: int) -> Option<Seq<char>>;

/// The text of the first ten UTF-8 bytes of `s` (the `YYYY-MM-DD` head of
/// a date or RFC 3339 timestamp), when they end on a character boundary.
pub open spec fn date_head(s: Seq<char>) -> Option<Seq<char>> {
    let b = vstd::utf8::encode_utf8(s);
    if b.len() >= 10 && vstd::utf8::is_char_boundary(b, 10) {
        Some(vstd::utf8::decode_utf8(b.subrange(0, 10)))
    } else {
        None
    }
}

/// The day number of the date that `s` starts with, if its head is one.
pub open spec fn date_days(s: Seq<char>) -> Option<int> {
    match date_head(s) {
        Some(h) => naive_date_days(h),
        None => None,
    }
}

/// `str::get(..10)`.
fn date_head_exec(s: &str) -> (r: Option<&str>)
    ensures
        match date_head(s@) {
            Some(h) => r matches Some(t) && t@ == h,
            None => r is None,
        },
{
    proof {
        vstd::utf8::encode_utf8_valid_utf8(s@);
    }
    if s.is_char_boundary(10) {
        let (h, _) = s.split_at(10);
        proof {
            let b = vstd::utf8::encode_utf8(s@);
            assert(h.spec_bytes() =~= b.subrange(0, 10));
            assert(vstd::utf8::encode_utf8(h@) == b.subrange(0, 10));
            vstd::utf8::encode_utf8_decode_utf8(h@);
            assert(vstd::utf8::decode_utf8(b.subrange(0, 10)) == h@);
        }
        Some(h)
    } else {
        None
    }
}

/// `NaiveDate::from_str` then `num_days_from_ce`, named by
/// `naive_date_days`. A parsed date always prints back.
#[verifier::external_body]
fn parse_naive_date(s: &str) -> (r: Option<i32>)
    ensures
        r is Some <==> naive_date_days(s@) is Some,
        r matches Some(d) ==> naive_date_days(s@) == Some(d as int) && date_text(d as int) is Some,
{
    s.parse::<chrono::NaiveDate>().ok().map(|d| d.num_days_from_ce())
}

/// Parses the date at the start of a release-date field.
fn parse_date(s: &str) -> (r: Option<i32>)
    ensures
        r is Some <==> date_days(s@) is Some,
        r matches Some(d) ==> date_days(s@) == Some(d as int) && date_text(d as int) is Some,
{
    match date_head_exec(s) {
        Some(h) => parse_naive_date(h),
        None => None,
    }
}

/// chrono's rendering of a day number as a date.
#[verifier::external_body]
fn format_date(days: i32) -> (r: Option<String>)
    ensures
        match (r, date_text(days as int)) {
            (Some(a), Some(b)) => a@ == b,
            (None, None) => true,
            _ => false,
        },
{
    chrono::NaiveDate::from_num_days_from_ce_opt(days).map(|d| d.to_string())
}

/// The UTC calendar day (as a day number) of the instant chrono parses from
/// `s` as an RFC 3339 timestamp; none when it is not one.
pub uninterp spec fn rfc3339_utc_days(s: Seq<char>) -> Option<int>;

/// What holds of the local day of an instant, whatever the time zone: it
/// prints as a date, and it is the UTC day or the day before or after
/// (chrono's UTC offsets are less than a day).
pub open spec fn local_day_of(t: Seq<char>, utc_day: int) -> bool {
    exists|d: int| utc_day - 1 <= d <= utc_day + 1 && #[trigger] date_text(d) == Some(t)
}

/// `chrono::DateTime::parse_from_rfc3339`, then the calendar day of that
/// instant in the machine's time zone (`YYYY-MM-DD`). Whether there is an
/// answer, and the UTC day it is near, are named by `rfc3339_utc_days`;
/// which of the three days it is depends on the time zone setting.
#[verifier::external_body]
fn local_date_text(s: &str) -> (r: Option<String>)
    ensures
        r is Some <==> rfc3339_utc_days(s@) is Some,
        r matches Some(t) ==> local_day_of(t@, rfc3339_utc_days(s@)->0),
{
    chrono::DateTime::parse_from_rfc3339(s)
        .ok()
        .map(|dt| dt.with_timezone(&chrono::Local).date_naive().to_string())
}

/// The day an episode airs when its air time is not an RFC 3339 instant:
/// the date its text starts with, if any; else none (empty).
pub open spec fn fallback_air_date(s: Seq<char>) -> Seq<char> {
    match date_days(s) {
        Some(d) => match date_text(d) {
            Some(t) => t,
            None => Seq::empty(),
        },
        None => Seq::empty(),
    }
}

/// The earliest of the parsed candidate days that falls in `start..=end`.
pub open spec fn earliest_in_window(cands: Seq<Option<int>>, start: int, end: int) -> Option<int>
    decreases cands.len(),
{
    if cands.len() == 0 {
        None
    } else {
        let rest = earliest_in_window(cands.drop_last(), start, end);
        match cands.last() {
            Some(d) => if start <= d <= end {
                match rest {
                    Some(m) => if d < m {
                        Some(d)
                    } else {
                        Some(m)
                    },
                    None => Some(d),
                }
            } else {
                rest
            },
            None => rest,
        }
    }
}

/// The day `earliest_in_window` picks is the least of the candidate days in
/// the window: it lies in the window, it is one of the candidates, and no
/// candidate in the window comes before it.
pub proof fn lemma_earliest_in_window(cands: Seq<Option<int>>, start: int, end: int)
    ensures
        forall|k: int|
            0 <= k < cands.len() ==> (#[trigger] cands[k] matches Some(x) ==> (start <= x && x <= end
                ==> (earliest_in_window(cands, start, end) matches Some(v) && v <= x))),
        earliest_in_window(cands, start, end) matches Some(v) ==> start <= v <= end && exists|k: int|
            0 <= k < cands.len() && #[trigger] cands[k] == Some(v),
    decreases cands.len(),
{
    if cands.len() > 0 {
        let init = cands.drop_last();
        lemma_earliest_in_window(init, start, end);
        assert forall|k: int| 0 <= k < init.len() implies #[trigger] init[k] == cands[k] by {}
        let e = earliest_in_window(cands, start, end);
        assert forall|k: int| 0 <= k < cands.len() implies (#[trigger] cands[k] matches Some(x) ==> (
        start <= x && x <= end ==> (e matches Some(v) && v <= x))) by {
            if k < init.len() {
                assert(init[k] == cands[k]);
            } else {
                assert(cands[k] == cands.last());
            }
        }
        if let Some(v) = e {
            if cands.last() == Some(v) {
                assert(cands[cands.len() - 1] == Some(v));
            } else {
                let k = choose|k: int| 0 <= k < init.len() && #[trigger] init[k] == Some(v);
                assert(cands[k] == Some(v));
            }
        }
    }
}

/// A movie goes on the calendar on the earliest of its digital, physical
/// and in-cinemas release days inside the window: each of them that falls
/// in the window puts the movie there on that day or earlier, and the day
/// chosen is one of them and lies in the window.
pub proof fn lemma_movie_day(m: Movie, start: int, end: int)
    ensures
        ({
            let d = earliest_in_window(release_days(m), start, end);
            &&& opt_days(m.digital_release) matches Some(x) ==> (start <= x && x <= end ==> (d matches Some(v)
                && v <= x))
            &&& opt_days(m.physical_release) matches Some(x) ==> (start <= x && x <= end ==> (d matches Some(v)
                && v <= x))
            &&& opt_days(m.in_cinemas) matches Some(x) ==> (start <= x && x <= end ==> (d matches Some(v)
                && v <= x))
            &&& d matches Some(v) ==> start <= v <= end && (opt_days(m.digital_release) == Some(v)
                || opt_days(m.physical_release) == Some(v) || opt_days(m.in_cinemas) == Some(v))
        }),
{
    let c = release_days(m);
    lemma_earliest_in_window(c, start, end);
    assert(c[0] == opt_days(m.digital_release));
    assert(c[1] == opt_days(m.physical_release));
    assert(c[2] == opt_days(m.in_cinemas));
}

/// A movie's release dates in the order they are considered: digital,
/// physical, cinemas; absent or unparsable ones count as none.
pub open spec fn release_days(m: Movie) -> Seq<Option<int>> {
    seq![opt_days(m.digital_release), opt_days(m.physical_release), opt_days(m.in_cinemas)]
}

pub open spec fn opt_days(s: Option<String>) -> Option<int> {
    match s {
        Some(t) => date_days(t@),
        None => None,
    }
}

/// `(2024)` for a known year, nothing otherwise.
pub open spec fn year_detail(year: Option<i32>) -> Seq<char> {
    match year {
        Some(y) => "("@ + int_str(y as int) + ")"@,
        None => Seq::empty(),
    }
}

fn opt_parse(s: &Option<String>) -> (r: Option<i32>)
    ensures
        r is Some <==> opt_days(*s) is Some,
        r matches Some(d) ==> opt_days(*s) == Some(d as int) && date_text(d as int) is Some,
{
    match s {
        Some(t) => parse_date(t.as_str()),
        None => None,
    }
}

/// A movie appears on the calendar on the earliest of its release dates
/// that falls in the window `start..=end` (day numbers), if any does.
pub fn movie_entry(m: &Movie, start: i32, end: i32) -> (r: Option<CalendarEntry>)
    ensures
        match earliest_in_window(release_days(*m), start as int, end as int) {
            None => r is None,
            Some(d) => r matches Some(e) && date_text(d) == Some(e.date@) && e.service@
                == "radarr"@ && e.title@ == m.title@ && e.detail@ == year_detail(m.year),
        },
{
    let cands = [opt_parse(&m.digital_release), opt_parse(&m.physical_release), opt_parse(&m.in_cinemas)];
    let mut best: Option<i32> = None;
    let mut i: usize = 0;
    while i < 3
        invariant
            0 <= i <= 3,
            forall|k: int| 0 <= k < 3 ==> (#[trigger] cands@[k] is Some <==> release_days(*m)[k] is Some),
            forall|k: int| 0 <= k < 3 ==> (#[trigger] cands@[k] matches Some(d) ==> release_days(*m)[k] == Some(d as int)),
            forall|k: int| 0 <= k < 3 ==> (#[trigger] cands@[k] matches Some(d) ==> date_text(d as int) is Some),
            match (best, earliest_in_window(release_days(*m).take(i as int), start as int, end as int)) {
                (Some(a), Some(b)) => a as int == b && date_text(b) is Some,
                (None, None) => true,
                _ => false,
            },
        decreases 3 - i,
    {
        assert(release_days(*m).take(i + 1).drop_last() =~= release_days(*m).take(i as int));
        if let Some(d) = cands[i] {
            if start <= d && d <= end {
                best = match best {
                    Some(b) => if d < b {
                        Some(d)
                    } else {
                        Some(b)
                    },
                    None => Some(d),
                };
            }
        }
        i = i + 1;
    }
    assert(release_days(*m).take(3) =~= release_days(*m));
    let day = match best {
        Some(d) => d,
        None => return None,
    };
    let date = match format_date(day) {
        Some(t) => t,
        None => return None,
    };
    let mut detail: Vec<char> = Vec::new();
    if let Some(y) = m.year {
        push_str(&mut detail, "(");
        push_chars(&mut detail, &i64_chars(y as i64));
        push_str(&mut detail, ")");
    }
    Some(CalendarEntry {
        date,
        service: string_of(&chars_of("radarr")),
        title: string_of(&chars_of(m.title.as_str())),
        detail: string_of(&detail),
    })
}

/// An episode appears on the day it airs in the machine's time zone (no
/// date when the air time is missing or unreadable), under its series
/// title, with `S01E02 — Episode title` as detail.
pub fn episode_entry(air_date_utc: Option<&str>, series_title: &str, code: &str, title: Option<&str>) -> (r: CalendarEntry)
    ensures
        air_date_utc is None ==> r.date@ == Seq::<char>::empty(),
        air_date_utc matches Some(s) ==> (rfc3339_utc_days(s@) is None ==> r.date@
            == fallback_air_date(s@)),
        air_date_utc matches Some(s) ==> (rfc3339_utc_days(s@) matches Some(u) ==> local_day_of(
            r.date@,
            u,
        )),
        r.service@ == "sonarr"@,
        r.title@ == series_title@,
        r.detail@ == code@ + " — "@ + (match title {
            Some(t) => t@,
            None => Seq::<char>::empty(),
        }),
{
    let date = match air_date_utc {
        Some(s) => match local_date_text(s) {
            Some(d) => d,
            None => match parse_date(s) {
                Some(days) => match format_date(days) {
                    Some(t) => t,
                    None => String::new(),
                },
                None => String::new(),
            },
        },
        None => String::new(),
    };
    let mut detail = chars_of(code);
    push_str(&mut detail, " — ");
    if let Some(t) = title {
        push_str(&mut detail, t);
    }
    CalendarEntry {
        date,
        service: string_of(&chars_of("sonarr")),
        title: string_of(&chars_of(series_title)),
        detail: string_of(&detail),
    }
}

/// Entry `a` is listed before entry `b`: by date text, then title, then
/// their order of arrival (the sort is stable).
pub open spec fn entry_before(es: Seq<CalendarEntry>, a: int, b: int) -> bool {
    let (da, db) = (es[a].date@, es[b].date@);
    let (ta, tb) = (es[a].title@, es[b].title@);
    ||| seq_lt(da, db)
    ||| (da == db && seq_lt(ta, tb))
    ||| (da == db && ta == tb && a < b)
}

pub open spec fn in_calendar_order(es: Seq<CalendarEntry>, r: Seq<usize>) -> bool {
    forall|p: int, q: int| 0 <= p < q < r.len() ==> #[trigger] entry_before(es, r[p] as int, r[q] as int)
}

/// Every entry once, by date, then title, ties in arrival order.
pub fn calendar_order(es: &[CalendarEntry]) -> (r: Vec<usize>)
    ensures
        r@.len() == es@.len(),
        forall|k: int| 0 <= k < r@.len() ==> #[trigger] r@[k] < es@.len(),
        forall|i: int| 0 <= i < es@.len() ==> #[trigger] r@.contains(i as usize),
        in_calendar_order(es@, r@),
        r@.no_duplicates(),
{
    let mut out: Vec<usize> = Vec::new();
    let mut i: usize = 0;
    while i < es.len()
        invariant
            0 <= i <= es@.len(),
            out@.len() == i,
            forall|k: int| 0 <= k < out@.len() ==> #[trigger] out@[k] < i,
            forall|m: int| 0 <= m < i ==> #[trigger] out@.contains(m as usize),
            in_calendar_order(es@, out@),
        decreases es@.len() - i,
    {
        let d = chars_of(es[i].date.as_str());
        let t = chars_of(es[i].title.as_str());
        let mut p: usize = 0;
        while p < out.len() && !goes_before(&d, &t, &es[out[p]])
            invariant
                0 <= p <= out@.len(),
                out@.len() == i,
                i < es@.len(),
                forall|k: int| 0 <= k < out@.len() ==> #[trigger] out@[k] < i,
                d@ == es@[i as int].date@,
                t@ == es@[i as int].title@,
                forall|q: int| 0 <= q < p ==> !key_lt(es@[i as int], #[trigger] es@[out@[q] as int]),
            decreases out@.len() - p,
        {
            p = p + 1;
        }
        proof {
            lemma_insert_keeps_calendar_order(es@, out@, p as int, i);
            crate::order::lemma_insert_contains(out@, p as int, i);
            out@.insert_ensures(p as int, i);
        }
        out.insert(p, i);
        i = i + 1;
    }
    proof {
        lemma_calendar_distinct(es@, out@);
    }
    out
}

/// Strict order on (date, title).
pub open spec fn key_lt(a: CalendarEntry, b: CalendarEntry) -> bool {
    seq_lt(a.date@, b.date@) || (a.date@ == b.date@ && seq_lt(a.title@, b.title@))
}

fn goes_before(d: &Vec<char>, t: &Vec<char>, e: &CalendarEntry) -> (r: bool)
    ensures
        r == (seq_lt(d@, e.date@) || (d@ == e.date@ && seq_lt(t@, e.title@))),
{
    let ed = chars_of(e.date.as_str());
    if chars_lt(d, &ed) {
        true
    } else if chars_eq(d, &ed) {
        let et = chars_of(e.title.as_str());
        chars_lt(t, &et)
    } else {
        false
    }
}

proof fn lemma_key_lt_trans(a: CalendarEntry, b: CalendarEntry, c: CalendarEntry)
    requires
        key_lt(a, b),
        key_lt(b, c) || (b.date@ == c.date@ && b.title@ == c.title@),
    ensures
        key_lt(a, c),
{
    if seq_lt(a.date@, b.date@) && seq_lt(b.date@, c.date@) {
        lemma_seq_lt_trans(a.date@, b.date@, c.date@);
    }
    if a.date@ == b.date@ && b.date@ == c.date@ && seq_lt(a.title@, b.title@) && seq_lt(
        b.title@,
        c.title@,
    ) {
        lemma_seq_lt_trans(a.title@, b.title@, c.title@);
    }
}

proof fn lemma_insert_keeps_calendar_order(es: Seq<CalendarEntry>, out: Seq<usize>, p: int, x: usize)
    requires
        in_calendar_order(es, out),
        0 <= p <= out.len(),
        x < es.len(),
        forall|k: int| 0 <= k < out.len() ==> #[trigger] out[k] < x,
        forall|q: int| 0 <= q < p ==> !key_lt(es[x as int], #[trigger] es[out[q] as int]),
        p < out.len() ==> key_lt(es[x as int], es[out[p] as int]),
    ensures
        in_calendar_order(es, out.insert(p, x)),
{
    let n = out.insert(p, x);
    out.insert_ensures(p, x);
    let ex = es[x as int];
    assert forall|a: int, b: int| 0 <= a < b < n.len() implies #[trigger] entry_before(
        es,
        n[a] as int,
        n[b] as int,
    ) by {
        if b < p {
            assert(n[a] == out[a] && n[b] == out[b]);
            assert(entry_before(es, out[a] as int, out[b] as int));
        } else if b == p {
            assert(n[a] == out[a]);
            let ea = es[out[a] as int];
            lemma_seq_lt_total(ex.date@, ea.date@);
            lemma_seq_lt_total(ex.title@, ea.title@);
        } else if a < p {
            assert(n[a] == out[a] && n[b] == out[b - 1]);
            assert(entry_before(es, out[a] as int, out[b - 1] as int));
        } else if a == p {
            assert(n[b] == out[b - 1]);
            if b - 1 > p {
                assert(entry_before(es, out[p] as int, out[b - 1] as int));
                lemma_key_lt_trans(ex, es[out[p] as int], es[out[b - 1] as int]);
            }
        } else {
            assert(n[a] == out[a - 1] && n[b] == out[b - 1]);
            assert(entry_before(es, out[a - 1] as int, out[b - 1] as int));
        }
    }
}

proof fn lemma_calendar_distinct(es: Seq<CalendarEntry>, r: Seq<usize>)
    requires
        in_calendar_order(es, r),
    ensures
        r.no_duplicates(),
{
    assert forall|p: int, q: int| 0 <= p < r.len() && 0 <= q < r.len() && p != q implies r[p]
        != r[q] by {
        if p < q {
            assert(entry_before(es, r[p] as int, r[q] as int));
        } else {
            assert(entry_before(es, r[q] as int, r[p] as int));
        }
        lemma_seq_lt_irrefl(es[r[p] as int].date@);
        lemma_seq_lt_irrefl(es[r[p] as int].title@);
    }
}

/// A copy of an entry (same text in every field).
fn copy_entry(e: &CalendarEntry) -> (r: CalendarEntry)
    ensures
        same_entry(r, *e),
{
    CalendarEntry {
        date: string_of(&chars_of(e.date.as_str())),
        service: string_of(&chars_of(e.service.as_str())),
        title: string_of(&chars_of(e.title.as_str())),
        detail: string_of(&chars_of(e.detail.as_str())),
    }
}

pub open spec fn same_entry(a: CalendarEntry, b: CalendarEntry) -> bool {
    a.date@ == b.date@ && a.service@ == b.service@ && a.title@ == b.title@ && a.detail@ == b.detail@
}

/// The merged calendar: every entry once, sorted by date, then title, ties
/// in arrival order.
pub fn sort_calendar(es: &[CalendarEntry]) -> (r: Vec<CalendarEntry>)
    ensures
        exists|order: Seq<usize>|
            {
                &&& order.len() == es@.len()
                &&& forall|k: int| 0 <= k < order.len() ==> #[trigger] order[k] < es@.len()
                &&& order.no_duplicates()
                &&& in_calendar_order(es@, order)
                &&& r@.len() == order.len()
                &&& forall|k: int| 0 <= k < r@.len() ==> #[trigger] same_entry(r@[k], es@[order[k] as int])
            },
{
    let order = calendar_order(es);
    let mut out: Vec<CalendarEntry> = Vec::new();
    let mut k: usize = 0;
    while k < order.len()
        invariant
            0 <= k <= order@.len(),
            order@.len() == es@.len(),
            forall|j: int| 0 <= j < order@.len() ==> #[trigger] order@[j] < es@.len(),
            out@.len() == k,
            forall|j: int| 0 <= j < k ==> #[trigger] same_entry(out@[j], es@[order@[j] as int]),
        decreases order@.len() - k,
    {
        out.push(copy_entry(&es[order[k]]));
        k = k + 1;
    }
    assert(in_calendar_order(es@, order@));
    out
}

} // verus!

verus! {

pub open spec fn entry_line(e: CalendarEntry) -> Seq<char> {
    "  ["@ + e.service@ + "] "@ + e.title@ + " "@ + e.detail@
}

/// The printed calendar, line by line: each new date opens a group with an
/// empty line and the date, then one line per entry.
pub open spec fn calendar_lines_spec(es: Seq<CalendarEntry>) -> Seq<Seq<char>>
    decreases es.len(),
{
    if es.len() == 0 {
        Seq::empty()
    } else {
        let prev = calendar_lines_spec(es.drop_last());
        let e = es.last();
        let opens = es.len() == 1 || es[es.len() - 2].date@ != e.date@;
        let head = if opens {
            prev.push(Seq::empty()).push(e.date@)
        } else {
            prev
        };
        head.push(entry_line(e))
    }
}

pub fn calendar_lines(es: &[CalendarEntry]) -> (r: Vec<String>)
    ensures
        r@.map_values(|s: String| s@) == calendar_lines_spec(es@),
{
    let mut out: Vec<String> = Vec::new();
    let mut i: usize = 0;
    while i < es.len()
        invariant
            0 <= i <= es@.len(),
            out@.map_values(|s: String| s@) == calendar_lines_spec(es@.take(i as int)),
        decreases es@.len() - i,
    {
        let ghost prefix = es@.take(i + 1);
        assert(prefix.drop_last() =~= es@.take(i as int));
        let opens = i == 0 || !chars_eq(&chars_of(es[i - 1].date.as_str()), &chars_of(es[i].date.as_str()));
        let ghost before = out@.map_values(|s: String| s@);
        if opens {
            out.push(String::new());
            out.push(string_of(&chars_of(es[i].date.as_str())));
        }
        let e = &es[i];
        let mut line = chars_of("  [");
        push_str(&mut line, e.service.as_str());
        push_str(&mut line, "] ");
        push_str(&mut line, e.title.as_str());
        push_str(&mut line, " ");
        push_str(&mut line, e.detail.as_str());
        out.push(string_of(&line));
        proof {
            if opens {
                assert(out@.map_values(|s: String| s@) =~= before.push(Seq::empty()).push(
                    es@[i as int].date@,
                ).push(entry_line(es@[i as int])));
            } else {
                assert(out@.map_values(|s: String| s@) =~= before.push(entry_line(es@[i as int])));
            }
        }
        i = i + 1;
    }
    assert(es@.take(i as int) =~= es@);
    out
}

pub open spec fn nothing_upcoming_message(days: i64) -> Seq<char> {
    "nothing upcoming in the next "@ + int_str(days as int) + " days"@
}

pub fn nothing_upcoming(days: i64) -> (r: String)
    ensures
        r@ == nothing_upcoming_message(days),
{
    let mut m = chars_of("nothing upcoming in the next ");
    push_chars(&mut m, &i64_chars(days));
    push_str(&mut m, " days");
    string_of(&m)
}

} // verus!
