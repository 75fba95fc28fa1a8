//! Torrent selection by hash prefix and torrent state classification.
use vstd::prelude::*;

use crate::error::{CliarrError, Result};
use crate::text::{
    chars_of, chars_starts_with, dec, dec_chars, push_chars, push_str, starts_with, string_of,
    to_lowercase, unicode_lowercase,
};

verus! {

/// qBittorrent 4.x reports pausedDL/pausedUP; 5.x renamed them stoppedDL/stoppedUP.
pub fn state_is_paused(state: &str) -> (r: bool)
    ensures
        r == (starts_with(state@, "paused"@) || starts_with(state@, "stopped"@)),
{
    let s = chars_of(state);
    chars_starts_with(&s, &chars_of("paused")) || chars_starts_with(&s, &chars_of("stopped"))
}

/// The hashes (in list order) that start with `lower`.
pub open spec fn matches_of(all: Seq<Seq<char>>, lower: Seq<char>) -> Seq<Seq<char>>
    decreases all.len(),
{
    if all.len() == 0 {
        Seq::empty()
    } else {
        let rest = matches_of(all.drop_last(), lower);
        if starts_with(all.last(), lower) {
            rest.push(all.last())
        } else {
            rest
        }
    }
}

pub open spec fn no_match_message(p: Seq<char>) -> Seq<char> {
    "no torrent matches hash "@ + p
}

pub open spec fn ambiguous_message(p: Seq<char>, n: nat) -> Seq<char> {
    "hash prefix "@ + p + " is ambiguous ("@ + dec(n) + " matches)"@
}

/// One prefix: its unique full hash, or the message explaining why not.
pub open spec fn expand_one(all: Seq<Seq<char>>, p: Seq<char>) -> core::result::Result<
    Seq<char>,
    Seq<char>,
> {
    let m = matches_of(all, unicode_lowercase(p));
    if m.len() == 0 {
        Err(no_match_message(p))
    } else if m.len() == 1 {
        Ok(m[0])
    } else {
        Err(ambiguous_message(p, m.len()))
    }
}

/// All prefixes in order; the first one that fails decides the error.
pub open spec fn expand_spec(all: Seq<Seq<char>>, prefixes: Seq<Seq<char>>) -> core::result::Result<
    Seq<Seq<char>>,
    Seq<char>,
>
    decreases prefixes.len(),
{
    if prefixes.len() == 0 {
        Ok(Seq::empty())
    } else {
        match expand_spec(all, prefixes.drop_last()) {
            Err(e) => Err(e),
            Ok(v) => match expand_one(all, prefixes.last()) {
                Err(e) => Err(e),
                Ok(h) => Ok(v.push(h)),
            },
        }
    }
}

pub open spec fn views(v: Seq<String>) -> Seq<Seq<char>> {
    v.map_values(|s: String| s@)
}

/// At least one hash (prefix) must be given.
pub fn require_hashes(prefixes: &[String]) -> (r: Result<()>)
    ensures
        r is Ok <==> prefixes@.len() > 0,
        r matches Err(e) ==> e is Other && e->Other_0@ == "no torrent hashes given"@,
{
    if prefixes.len() == 0 {
        Err(CliarrError::Other(string_of(&chars_of("no torrent hashes given"))))
    } else {
        Ok(())
    }
}

fn expand_one_exec(all: &[String], p: &String) -> (r: core::result::Result<String, String>)
    ensures
        match (r, expand_one(views(all@), p@)) {
            (Ok(a), Ok(b)) => a@ == b,
            (Err(a), Err(b)) => a@ == b,
            _ => false,
        },
{
    let lower = to_lowercase(p.as_str());
    let lc = chars_of(lower.as_str());
    let mut found: Vec<usize> = Vec::new();
    let mut j: usize = 0;
    while j < all.len()
        invariant
            0 <= j <= all@.len(),
            lc@ == unicode_lowercase(p@),
            found@.len() == matches_of(views(all@.take(j as int)), lc@).len(),
            forall|k: int|
                0 <= k < found@.len() ==> #[trigger] found@[k] < all@.len() && all@[found@[k] as int]@
                    == matches_of(views(all@.take(j as int)), lc@)[k],
        decreases all@.len() - j,
    {
        let h = chars_of(all[j].as_str());
        proof {
            assert(views(all@.take(j + 1)).drop_last() =~= views(all@.take(j as int)));
            assert(views(all@.take(j + 1)).last() == all@[j as int]@);
        }
        if chars_starts_with(&h, &lc) {
            found.push(j);
        }
        j = j + 1;
    }
    assert(all@.take(j as int) =~= all@);
    if found.len() == 0 {
        let mut m = chars_of("no torrent matches hash ");
        push_str(&mut m, p.as_str());
        Err(string_of(&m))
    } else if found.len() == 1 {
        Ok(string_of(&chars_of(all[found[0]].as_str())))
    } else {
        let mut m = chars_of("hash prefix ");
        push_str(&mut m, p.as_str());
        push_str(&mut m, " is ambiguous (");
        let d = dec_chars(found.len() as u64);
        push_chars(&mut m, &d);
        push_str(&mut m, " matches)");
        assert(m@ =~= ambiguous_message(p@, found@.len() as nat));
        Err(string_of(&m))
    }
}

/// Resolve hash prefixes (as copied from `torrents list`) against the full
/// hashes: at least one must be given, and each must match exactly one
/// torrent.
pub fn expand_hashes(all: &[String], prefixes: &[String]) -> (r: Result<Vec<String>>)
    ensures
        prefixes@.len() == 0 ==> (r matches Err(e) && e is Other && e->Other_0@
            == "no torrent hashes given"@),
        prefixes@.len() > 0 ==> match (r, expand_spec(views(all@), views(prefixes@))) {
            (Ok(a), Ok(b)) => views(a@) == b,
            (Err(e), Err(m)) => e is Other && e->Other_0@ == m,
            _ => false,
        },
{
    if prefixes.len() == 0 {
        return Err(CliarrError::Other(string_of(&chars_of("no torrent hashes given"))));
    }
    let mut out: Vec<String> = Vec::new();
    let ghost hashes = views(all@);
    let ghost ps = views(prefixes@);
    let mut i: usize = 0;
    assert(ps.take(0) =~= Seq::<Seq<char>>::empty());
    assert(views(out@) =~= Seq::<Seq<char>>::empty());
    while i < prefixes.len()
        invariant
            0 <= i <= prefixes@.len(),
            hashes == views(all@),
            ps == views(prefixes@),
            expand_spec(hashes, ps.take(i as int)) == Ok::<Seq<Seq<char>>, Seq<char>>(views(out@)),
        decreases prefixes@.len() - i,
    {
        let one = expand_one_exec(all, &prefixes[i]);
        proof {
            assert(ps.take(i + 1).drop_last() =~= ps.take(i as int));
            assert(ps.take(i + 1).last() == prefixes@[i as int]@);
        }
        match one {
            Ok(h) => {
                let ghost before = views(out@);
                assert(expand_one(hashes, ps.take(i + 1).last()) == Ok::<Seq<char>, Seq<char>>(
                    h@,
                ));
                out.push(h);
                assert(views(out@) =~= before.push(h@));
            },
            Err(m) => {
                proof {
                    lemma_expand_err_persists(hashes, ps, i as int, ps.len() as int);
                    assert(ps.take(ps.len() as int) =~= ps);
                }
                return Err(CliarrError::Other(m));
            },
        }
        i = i + 1;
    }
    assert(ps.take(i as int) =~= ps);
    Ok(out)
}

/// Once a prefix of the list fails, every longer prefix fails the same way.
proof fn lemma_expand_err_persists(all: Seq<Seq<char>>, ps: Seq<Seq<char>>, i: int, n: int)
    requires
        0 <= i < n <= ps.len(),
        expand_spec(all, ps.take(i + 1)) is Err,
    ensures
        expand_spec(all, ps.take(n)) == expand_spec(all, ps.take(i + 1)),
    decreases n - i,
{
    if n > i + 1 {
        lemma_expand_err_persists(all, ps, i, n - 1);
        assert(ps.take(n).drop_last() =~= ps.take(n - 1));
    }
}

} // verus!

verus! {

/// The matches are exactly the listed hashes that start with the prefix.
proof fn lemma_matches_of(all: Seq<Seq<char>>, lower: Seq<char>)
    ensures
        forall|x: Seq<char>| #[trigger] matches_of(all, lower).contains(x) ==> all.contains(x)
            && starts_with(x, lower),
        forall|j: int|
            0 <= j < all.len() && starts_with(all[j], lower) ==> #[trigger] matches_of(
                all,
                lower,
            ).contains(all[j]),
    decreases all.len(),
{
    if all.len() > 0 {
        let rest = all.drop_last();
        lemma_matches_of(rest, lower);
        let m = matches_of(all, lower);
        assert forall|x: Seq<char>| #[trigger] m.contains(x) implies all.contains(x) && starts_with(
            x,
            lower,
        ) by {
            if matches_of(rest, lower).contains(x) {
                let k = choose|k: int| 0 <= k < rest.len() && rest[k] == x;
                assert(all[k] == x);
            } else {
                assert(x == all.last());
                assert(all[all.len() - 1] == x);
            }
        }
        assert forall|j: int| 0 <= j < all.len() && starts_with(all[j], lower) implies #[trigger] m.contains(
            all[j],
        ) by {
            if j < all.len() - 1 {
                assert(rest[j] == all[j]);
                assert(matches_of(rest, lower).contains(all[j]));
                let k = choose|k: int|
                    0 <= k < matches_of(rest, lower).len() && matches_of(rest, lower)[k] == all[j];
                assert(m[k] == all[j]);
            } else {
                assert(m[m.len() - 1] == all[j]);
            }
        }
    }
}

/// When every prefix expands, the i-th result is a listed hash that starts
/// with the lowercased i-th prefix, and no other listed hash does.
pub proof fn lemma_expansion_is_unique_match(all: Seq<Seq<char>>, ps: Seq<Seq<char>>)
    requires
        expand_spec(all, ps) is Ok,
    ensures
        ({
            let v = expand_spec(all, ps)->Ok_0;
            &&& v.len() == ps.len()
            &&& forall|i: int|
                0 <= i < v.len() ==> all.contains(#[trigger] v[i]) && starts_with(
                    v[i],
                    unicode_lowercase(ps[i]),
                )
            &&& forall|i: int, j: int|
                0 <= i < v.len() && 0 <= j < all.len() && starts_with(
                    all[j],
                    unicode_lowercase(ps[i]),
                ) ==> #[trigger] all[j] == #[trigger] v[i]
        }),
    decreases ps.len(),
{
    if ps.len() > 0 {
        let rest = ps.drop_last();
        lemma_expansion_is_unique_match(all, rest);
        let lower = unicode_lowercase(ps.last());
        lemma_matches_of(all, lower);
        let m = matches_of(all, lower);
        let v = expand_spec(all, ps)->Ok_0;
        let w = expand_spec(all, rest)->Ok_0;
        assert(v == w.push(m[0]));
        assert(m.contains(m[0]));
        assert forall|i: int| 0 <= i < v.len() implies all.contains(#[trigger] v[i]) && starts_with(
            v[i],
            unicode_lowercase(ps[i]),
        ) by {
            if i < v.len() - 1 {
                assert(v[i] == w[i]);
                assert(ps[i] == rest[i]);
            }
        }
        assert forall|i: int, j: int|
            0 <= i < v.len() && 0 <= j < all.len() && starts_with(
                all[j],
                unicode_lowercase(ps[i]),
            ) implies #[trigger] all[j] == #[trigger] v[i] by {
            if i < v.len() - 1 {
                assert(v[i] == w[i]);
                assert(ps[i] == rest[i]);
            } else {
                assert(m.contains(all[j]));
                let k = choose|k: int| 0 <= k < m.len() && m[k] == all[j];
            }
        }
    }
}

} // verus!
