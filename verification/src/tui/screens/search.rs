//! Search screen: when the live search fires, how movie and series hits are
//! merged into one list, and where the cursor goes when results change.
use vstd::prelude::*;

use crate::text::{chars_of, string_of, trim_chars, trim_ws, utf8_of};

verus! {

/// Live search fires this many ticks after the last keystroke.
pub const DEBOUNCE_TICKS: u64 = 2;

/// Queries shorter than this many bytes (after trimming) are not sent.
pub const MIN_QUERY_LEN: usize = 2;

/// The trimmed query, when it is long enough to send.
pub open spec fn search_term_spec(input: Seq<char>) -> Option<Seq<char>> {
    let t = trim_ws(input);
    if utf8_of(t).len() >= MIN_QUERY_LEN {
        Some(t)
    } else {
        None
    }
}

pub fn search_term(input: &str) -> (r: Option<String>)
    ensures
        match (r, search_term_spec(input@)) {
            (Some(a), Some(b)) => a@ == b,
            (None, None) => true,
            _ => false,
        },
{
    let tc = trim_chars(&chars_of(input));
    proof {
        lemma_utf8_len(tc@);
    }
    let long_enough = tc.len() >= 2 || (tc.len() == 1 && tc[0] as u32 > 0x7f);
    if long_enough {
        Some(string_of(&tc))
    } else {
        None
    }
}

/// A string takes at least one byte per character, and a single character
/// takes two or more exactly when it is not ASCII.
proof fn lemma_utf8_len(s: Seq<char>)
    ensures
        utf8_of(s).len() >= s.len(),
        s.len() == 1 ==> (utf8_of(s).len() >= 2 <==> s[0] as u32 > 0x7f),
    decreases s.len(),
{
    if s.len() > 0 {
        lemma_utf8_len(s.drop_first());
        if s.len() == 1 {
            assert(s.drop_first() =~= Seq::<char>::empty());
        }
    }
}

/// What a keystroke in the search box schedules.
#[derive(Debug, Clone, Copy, PartialEq, Eq, Structural)]
pub enum SearchSchedule {
    /// Too short to search: drop results and invalidate in-flight lookups.
    Reset,
    /// Search at this tick unless another keystroke comes first.
    FireAt(u64),
}

pub fn schedule_search(input: &str, tick: u64) -> (r: SearchSchedule)
    requires
        tick <= u64::MAX - DEBOUNCE_TICKS,
    ensures
        search_term_spec(input@) is None ==> r == SearchSchedule::Reset,
        search_term_spec(input@) is Some ==> r == SearchSchedule::FireAt(
            (tick + DEBOUNCE_TICKS) as u64,
        ),
{
    match search_term(input) {
        None => SearchSchedule::Reset,
        Some(_) => SearchSchedule::FireAt(tick + DEBOUNCE_TICKS),
    }
}

/// One row of the merged results: the index of a movie or of a series hit.
#[derive(Debug, Clone, Copy, PartialEq, Eq, Structural)]
pub enum HitRef {
    Movie(usize),
    Series(usize),
}

/// The hits at rank `k` of each list: the movie first, then the series.
pub open spec fn rank_row(movies: nat, series: nat, k: nat) -> Seq<HitRef> {
    let m = if k < movies {
        seq![HitRef::Movie(k as usize)]
    } else {
        Seq::empty()
    };
    let s = if k < series {
        seq![HitRef::Series(k as usize)]
    } else {
        Seq::empty()
    };
    m + s
}

/// The first `n` ranks of both lists, interleaved.
pub open spec fn interleaved(movies: nat, series: nat, n: nat) -> Seq<HitRef>
    decreases n,
{
    if n == 0 {
        Seq::empty()
    } else {
        interleaved(movies, series, (n - 1) as nat) + rank_row(movies, series, (n - 1) as nat)
    }
}

pub open spec fn max_nat(a: nat, b: nat) -> nat {
    if a >= b {
        a
    } else {
        b
    }
}

/// Merged results: movies and series alternate rank by rank so both stay
/// visible (each list arrives relevance-ordered from its service).
pub open spec fn search_hits_spec(movies: nat, series: nat) -> Seq<HitRef> {
    interleaved(movies, series, max_nat(movies, series))
}

pub fn search_hits(movies: usize, series: usize) -> (r: Vec<HitRef>)
    requires
        movies + series <= usize::MAX,
    ensures
        r@ == search_hits_spec(movies as nat, series as nat),
        r@.len() == movies + series,
{
    proof {
        lemma_search_hits_complete(movies as nat, series as nat);
    }
    let n = if movies >= series {
        movies
    } else {
        series
    };
    let mut out: Vec<HitRef> = Vec::new();
    let mut k: usize = 0;
    while k < n
        invariant
            0 <= k <= n,
            n == max_nat(movies as nat, series as nat),
            out@ == interleaved(movies as nat, series as nat, k as nat),
            out@.len() == (if k < movies { k } else { movies }) + (if k < series { k } else { series }),
        decreases n - k,
    {
        if k < movies {
            out.push(HitRef::Movie(k));
        }
        if k < series {
            out.push(HitRef::Series(k));
        }
        assert(out@ =~= interleaved(movies as nat, series as nat, (k + 1) as nat));
        k = k + 1;
    }
    out
}

proof fn lemma_interleaved(movies: nat, series: nat, n: nat)
    ensures
        interleaved(movies, series, n).len() == (if n < movies { n } else { movies }) + (if n
            < series {
            n
        } else {
            series
        }),
        forall|k: nat| k < n && k < movies ==> #[trigger] interleaved(movies, series, n).contains(
            HitRef::Movie(k as usize),
        ),
        forall|k: nat| k < n && k < series ==> #[trigger] interleaved(movies, series, n).contains(
            HitRef::Series(k as usize),
        ),
        forall|p: int|
            0 <= p < interleaved(movies, series, n).len() ==> match #[trigger] interleaved(
                movies,
                series,
                n,
            )[p] {
                HitRef::Movie(i) => i < movies && i < n,
                HitRef::Series(j) => j < series && j < n,
            },
    decreases n,
{
    if n > 0 {
        let prev = interleaved(movies, series, (n - 1) as nat);
        let row = rank_row(movies, series, (n - 1) as nat);
        let cur = interleaved(movies, series, n);
        lemma_interleaved(movies, series, (n - 1) as nat);
        assert(cur == prev + row);
        assert forall|k: nat| k < n && k < movies implies #[trigger] cur.contains(
            HitRef::Movie(k as usize),
        ) by {
            if k < n - 1 {
                assert(prev.contains(HitRef::Movie(k as usize)));
                let q = choose|q: int| 0 <= q < prev.len() && prev[q] == HitRef::Movie(k as usize);
                assert(cur[q] == prev[q]);
            } else {
                assert(cur[prev.len() as int] == HitRef::Movie(k as usize));
            }
        }
        assert forall|k: nat| k < n && k < series implies #[trigger] cur.contains(
            HitRef::Series(k as usize),
        ) by {
            if k < n - 1 {
                assert(prev.contains(HitRef::Series(k as usize)));
                let q = choose|q: int| 0 <= q < prev.len() && prev[q] == HitRef::Series(k as usize);
                assert(cur[q] == prev[q]);
            } else {
                assert(cur[cur.len() - 1] == HitRef::Series(k as usize));
            }
        }
        assert forall|p: int| 0 <= p < cur.len() implies match #[trigger] cur[p] {
            HitRef::Movie(i) => i < movies && i < n,
            HitRef::Series(j) => j < series && j < n,
        } by {
            if p < prev.len() {
                assert(cur[p] == prev[p]);
            }
        }
    }
}

/// No hit is lost or invented: the merged list has every movie hit and
/// every series hit, and nothing else.
pub proof fn lemma_search_hits_complete(movies: nat, series: nat)
    ensures
        search_hits_spec(movies, series).len() == movies + series,
        forall|k: nat| k < movies ==> #[trigger] search_hits_spec(movies, series).contains(
            HitRef::Movie(k as usize),
        ),
        forall|k: nat| k < series ==> #[trigger] search_hits_spec(movies, series).contains(
            HitRef::Series(k as usize),
        ),
        forall|p: int|
            0 <= p < search_hits_spec(movies, series).len() ==> match #[trigger] search_hits_spec(
                movies,
                series,
            )[p] {
                HitRef::Movie(i) => i < movies,
                HitRef::Series(j) => j < series,
            },
{
    lemma_interleaved(movies, series, max_nat(movies, series));
}

/// Identity of a search hit that survives the list being rebuilt.
#[derive(Debug, Clone)]
pub struct SearchKey {
    pub is_movie: bool,
    pub title: String,
    pub year: Option<i32>,
}

pub open spec fn same_hit(a: SearchKey, b: SearchKey) -> bool {
    a.is_movie == b.is_movie && a.title@ == b.title@ && a.year == b.year
}

/// Position of the first hit equal to `k`, if any.
pub open spec fn first_hit_of(hits: Seq<SearchKey>, k: SearchKey) -> Option<nat>
    decreases hits.len(),
{
    if hits.len() == 0 {
        None
    } else if same_hit(hits[0], k) {
        Some(0)
    } else {
        match first_hit_of(hits.drop_first(), k) {
            Some(i) => Some(i + 1),
            None => None,
        }
    }
}

/// After results change, the cursor follows the hit it was on; otherwise it
/// returns to the top.
pub open spec fn restored_search_selection(hits: Seq<SearchKey>, prev: Option<SearchKey>) -> nat {
    match prev {
        Some(k) => match first_hit_of(hits, k) {
            Some(i) => i,
            None => 0,
        },
        None => 0,
    }
}

proof fn lemma_first_hit_of(hits: Seq<SearchKey>, k: SearchKey, i: int)
    requires
        0 <= i <= hits.len(),
        forall|j: int| 0 <= j < i ==> !same_hit(#[trigger] hits[j], k),
    ensures
        i < hits.len() && same_hit(hits[i], k) ==> first_hit_of(hits, k) == Some(i as nat),
        i == hits.len() ==> first_hit_of(hits, k) is None,
    decreases i,
{
    if i > 0 {
        lemma_first_hit_of(hits.drop_first(), k, i - 1);
    }
}

pub fn restore_search_selection(hits: &[SearchKey], prev: Option<SearchKey>) -> (r: usize)
    ensures
        r == restored_search_selection(hits@, prev),
{
    if let Some(key) = &prev {
        let mut i: usize = 0;
        while i < hits.len()
            invariant
                0 <= i <= hits@.len(),
                prev == Some(*key),
                forall|j: int| 0 <= j < i ==> !same_hit(#[trigger] hits@[j], *key),
            decreases hits@.len() - i,
        {
            let h = &hits[i];
            if h.is_movie == key.is_movie && h.title == key.title && h.year == key.year {
                proof {
                    lemma_first_hit_of(hits@, *key, i as int);
                }
                return i;
            }
            i = i + 1;
        }
        proof {
            lemma_first_hit_of(hits@, *key, i as int);
        }
    }
    0
}

/// What an empty results list says, and whether it is an error: a search
/// in flight shows the spinner; a failed lookup (movies first) shows its
/// error; a query long enough to send found nothing; otherwise a hint.
pub open spec fn search_placeholder_spec(
    searching: bool,
    movies_failed: Option<Seq<char>>,
    series_failed: Option<Seq<char>>,
    input: Seq<char>,
    spinner: Seq<char>,
) -> (Seq<char>, bool) {
    if searching {
        (spinner + " searching…"@, false)
    } else if movies_failed is Some {
        (movies_failed->0, true)
    } else if series_failed is Some {
        (series_failed->0, true)
    } else if search_term_spec(input) is Some {
        ("no results"@, false)
    } else {
        ("results appear as you type"@, false)
    }
}

pub open spec fn opt_text(o: Option<&str>) -> Option<Seq<char>> {
    match o {
        Some(s) => Some(s@),
        None => None,
    }
}

pub fn search_placeholder(
    searching: bool,
    movies_failed: Option<&str>,
    series_failed: Option<&str>,
    input: &str,
    spinner: &str,
) -> (r: (String, bool))
    ensures
        (r.0@, r.1) == search_placeholder_spec(
            searching,
            opt_text(movies_failed),
            opt_text(series_failed),
            input@,
            spinner@,
        ),
{
    if searching {
        let mut t = chars_of(spinner);
        crate::text::push_str(&mut t, " searching…");
        return (string_of(&t), false);
    }
    if let Some(e) = movies_failed {
        return (string_of(&chars_of(e)), true);
    }
    if let Some(e) = series_failed {
        return (string_of(&chars_of(e)), true);
    }
    if search_term(input).is_some() {
        (string_of(&chars_of("no results")), false)
    } else {
        (string_of(&chars_of("results appear as you type")), false)
    }
}

} // verus!
