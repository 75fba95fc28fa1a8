//! Case-insensitive title order, shared by the library list command and the
//! library screen.
use vstd::prelude::*;

use crate::text::{
    chars_lt, chars_of, lemma_seq_lt_irrefl, lemma_seq_lt_total, lemma_seq_lt_trans, seq_lt,
    to_lowercase, unicode_lowercase,
};

verus! {

/// The sort key of item `i`: its lowercased title.
pub open spec fn title_key(titles: Seq<String>, i: int) -> Seq<char> {
    unicode_lowercase(titles[i]@)
}

/// Item `a` is listed before item `b`: by lowercased title, and by list
/// position among equal titles (the sort is stable).
pub open spec fn listed_before(titles: Seq<String>, a: int, b: int) -> bool {
    ||| seq_lt(title_key(titles, a), title_key(titles, b))
    ||| (title_key(titles, a) == title_key(titles, b) && a < b)
}

pub open spec fn in_title_order(titles: Seq<String>, r: Seq<usize>) -> bool {
    forall|p: int, q: int|
        0 <= p < q < r.len() ==> #[trigger] listed_before(titles, r[p] as int, r[q] as int)
}

/// The kept items, each once, sorted by lowercased title with ties in list
/// order (a stable sort).
pub fn order_by_title(titles: &[String], keep: &[bool]) -> (r: Vec<usize>)
    requires
        keep@.len() == titles@.len(),
    ensures
        forall|k: int| 0 <= k < r@.len() ==> #[trigger] r@[k] < titles@.len(),
        forall|i: int| 0 <= i < titles@.len() ==> (keep@[i] <==> r@.contains(i as usize)),
        in_title_order(titles@, r@),
        r@.no_duplicates(),
{
    let mut keys: Vec<Vec<char>> = Vec::new();
    let mut out: Vec<usize> = Vec::new();
    let mut i: usize = 0;
    while i < titles.len()
        invariant
            0 <= i <= titles@.len(),
            keep@.len() == titles@.len(),
            keys@.len() == i,
            forall|j: int| 0 <= j < i ==> #[trigger] keys@[j]@ == title_key(titles@, j),
            forall|k: int| 0 <= k < out@.len() ==> #[trigger] out@[k] < i,
            forall|m: int| 0 <= m < i ==> (keep@[m] <==> out@.contains(m as usize)),
            in_title_order(titles@, out@),
        decreases titles@.len() - i,
    {
        let key = chars_of(to_lowercase(titles[i].as_str()).as_str());
        if keep[i] {
            let mut p: usize = 0;
            while p < out.len() && !chars_lt(&key, &keys[out[p]])
                invariant
                    0 <= p <= out@.len(),
                    keys@.len() == i,
                    forall|k: int| 0 <= k < out@.len() ==> #[trigger] out@[k] < i,
                    key@ == title_key(titles@, i as int),
                    forall|j: int| 0 <= j < i ==> #[trigger] keys@[j]@ == title_key(titles@, j),
                    forall|q: int|
                        0 <= q < p ==> !seq_lt(
                            title_key(titles@, i as int),
                            #[trigger] title_key(titles@, out@[q] as int),
                        ),
                decreases out@.len() - p,
            {
                p = p + 1;
            }
            proof {
                if p < out@.len() {
                    assert(seq_lt(
                        title_key(titles@, i as int),
                        title_key(titles@, out@[p as int] as int),
                    ));
                }
                lemma_insert_keeps_order(titles@, out@, p as int, i);
                lemma_insert_contains(out@, p as int, i);
            }
            out.insert(p, i);
        }
        keys.push(key);
        i = i + 1;
    }
    proof {
        lemma_ordered_distinct(titles@, out@);
    }
    out
}

proof fn lemma_insert_keeps_order(titles: Seq<String>, out: Seq<usize>, p: int, x: usize)
    requires
        in_title_order(titles, out),
        0 <= p <= out.len(),
        forall|k: int| 0 <= k < out.len() ==> #[trigger] out[k] < x,
        forall|q: int|
            0 <= q < p ==> !seq_lt(title_key(titles, x as int), #[trigger] title_key(titles, out[q] as int)),
        p < out.len() ==> seq_lt(title_key(titles, x as int), title_key(titles, out[p] as int)),
    ensures
        in_title_order(titles, out.insert(p, x)),
{
    let n = out.insert(p, x);
    out.insert_ensures(p, x);
    let kx = title_key(titles, x as int);
    assert forall|a: int, b: int| 0 <= a < b < n.len() implies #[trigger] listed_before(
        titles,
        n[a] as int,
        n[b] as int,
    ) by {
        if b < p {
            assert(n[a] == out[a] && n[b] == out[b]);
            assert(listed_before(titles, out[a] as int, out[b] as int));
        } else if b == p {
            assert(n[a] == out[a]);
            lemma_seq_lt_total(kx, title_key(titles, out[a] as int));
        } else if a < p {
            assert(n[a] == out[a] && n[b] == out[b - 1]);
            assert(listed_before(titles, out[a] as int, out[b - 1] as int));
        } else if a == p {
            assert(n[b] == out[b - 1]);
            if b - 1 > p {
                assert(listed_before(titles, out[p] as int, out[b - 1] as int));
                if title_key(titles, out[p] as int) != title_key(titles, out[b - 1] as int) {
                    lemma_seq_lt_trans(
                        kx,
                        title_key(titles, out[p] as int),
                        title_key(titles, out[b - 1] as int),
                    );
                }
            }
        } else {
            assert(n[a] == out[a - 1] && n[b] == out[b - 1]);
            assert(listed_before(titles, out[a - 1] as int, out[b - 1] as int));
        }
    }
}

pub proof fn lemma_insert_contains(s: Seq<usize>, p: int, x: usize)
    requires
        0 <= p <= s.len(),
    ensures
        forall|m: usize| #[trigger] s.insert(p, x).contains(m) <==> (s.contains(m) || m == x),
{
    s.insert_ensures(p, x);
    let n = s.insert(p, x);
    assert forall|m: usize| #[trigger] n.contains(m) <==> (s.contains(m) || m == x) by {
        if n.contains(m) {
            let k = choose|k: int| 0 <= k < n.len() && n[k] == m;
            if k < p {
                assert(s[k] == m);
            } else if k > p {
                assert(s[k - 1] == m);
            }
        }
        if s.contains(m) {
            let k = choose|k: int| 0 <= k < s.len() && s[k] == m;
            if k < p {
                assert(n[k] == m);
            } else {
                assert(n[k + 1] == m);
            }
        }
        if m == x {
            assert(n[p] == x);
        }
    }
}

/// A list in title order never repeats an index.
proof fn lemma_ordered_distinct(titles: Seq<String>, r: Seq<usize>)
    requires
        in_title_order(titles, r),
    ensures
        r.no_duplicates(),
{
    assert forall|p: int, q: int| 0 <= p < r.len() && 0 <= q < r.len() && p != q implies r[p]
        != r[q] by {
        if p < q {
            assert(listed_before(titles, r[p] as int, r[q] as int));
        } else {
            assert(listed_before(titles, r[q] as int, r[p] as int));
        }
        lemma_seq_lt_irrefl(title_key(titles, r[p] as int));
    }
}

} // verus!

verus! {

/// Position of the first element satisfying `p`, if any (`Iterator::position`).
pub open spec fn first_match<A>(s: Seq<A>, p: spec_fn(A) -> bool) -> Option<nat>
    decreases s.len(),
{
    if s.len() == 0 {
        None
    } else if p(s[0]) {
        Some(0)
    } else {
        match first_match(s.drop_first(), p) {
            Some(i) => Some(i + 1),
            None => None,
        }
    }
}

/// A scan that has seen no match before `i` finds the first match at `i`,
/// or none at the end.
pub proof fn lemma_first_match<A>(s: Seq<A>, p: spec_fn(A) -> bool, i: int)
    requires
        0 <= i <= s.len(),
        forall|j: int| 0 <= j < i ==> !p(#[trigger] s[j]),
    ensures
        i < s.len() && p(s[i]) ==> first_match(s, p) == Some(i as nat),
        i == s.len() ==> first_match(s, p) is None,
    decreases i,
{
    if i > 0 {
        lemma_first_match(s.drop_first(), p, i - 1);
    }
}

} // verus!
