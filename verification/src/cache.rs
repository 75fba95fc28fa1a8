//! On-disk poster cache: each poster is stored under a name derived from its
//! address.
use vstd::prelude::*;

use crate::text::{chars_of, push_chars, push_str, string_of, utf8_of};
use crate::update::{
    hex_lower, hex_lower_exec, lemma_hex_lower_injective, lemma_hex_lower_len, sha256_digest,
    sha256_spec,
};

verus! {

/// The cache file name of a poster: the lowercase hex SHA-256 of its
/// address (UTF-8), then `.img`.
pub open spec fn poster_file_name_spec(url: Seq<char>) -> Seq<char> {
    hex_lower(sha256_spec(utf8_of(url))) + ".img"@
}

pub fn poster_file_name(url: &str) -> (r: String)
    ensures
        r@ == poster_file_name_spec(url@),
{
    let digest = sha256_digest(url.as_bytes());
    let mut name = hex_lower_exec(&digest);
    push_str(&mut name, ".img");
    string_of(&name)
}

/// Equal addresses share one poster file, and addresses whose SHA-256
/// digests differ (distinct addresses, barring a hash collision) get
/// distinct files.
pub proof fn lemma_poster_file_names(u1: Seq<char>, u2: Seq<char>)
    ensures
        u1 == u2 ==> poster_file_name_spec(u1) == poster_file_name_spec(u2),
        sha256_spec(utf8_of(u1)) != sha256_spec(utf8_of(u2)) ==> poster_file_name_spec(u1)
            != poster_file_name_spec(u2),
{
    let d1 = sha256_spec(utf8_of(u1));
    let d2 = sha256_spec(utf8_of(u2));
    if poster_file_name_spec(u1) == poster_file_name_spec(u2) {
        let n1 = poster_file_name_spec(u1);
        reveal_strlit(".img");
        lemma_hex_lower_len(d1);
        lemma_hex_lower_len(d2);
        assert(n1.len() == hex_lower(d1).len() + 4);
        assert(hex_lower(d1) =~= n1.take(n1.len() - 4));
        assert(hex_lower(d2) =~= n1.take(n1.len() - 4));
        lemma_hex_lower_injective(d1, d2);
    }
}

} // verus!

verus! {

/// Decoded posters kept in memory (the disk cache keeps the rest).
pub const MAX_CACHED: usize = 60;

/// The addresses other than `url`, in order.
pub open spec fn without(order: Seq<Seq<char>>, url: Seq<char>) -> Seq<Seq<char>>
    decreases order.len(),
{
    if order.len() == 0 {
        Seq::empty()
    } else {
        let rest = without(order.drop_last(), url);
        if order.last() == url {
            rest
        } else {
            rest.push(order.last())
        }
    }
}

/// The most recently loaded posters, oldest first: `url` moves to the end,
/// and the oldest beyond the cap are evicted.
pub open spec fn touched(order: Seq<Seq<char>>, url: Seq<char>) -> Seq<Seq<char>> {
    without(order, url).push(url)
}

pub open spec fn excess(len: nat, cap: nat) -> nat {
    if len > cap {
        (len - cap) as nat
    } else {
        0
    }
}

pub open spec fn views_of(v: Seq<String>) -> Seq<Seq<char>> {
    v.map_values(|s: String| s@)
}

/// Record that the poster at `url` was just loaded; returns the addresses
/// evicted from memory, oldest first.
pub fn touch_poster(order: &mut Vec<String>, url: &str, cap: usize) -> (evicted: Vec<String>)
    requires
        cap > 0,
    ensures
        ({
            let t = touched(views_of(old(order)@), url@);
            let k = excess(t.len(), cap as nat);
            &&& views_of(evicted@) == t.take(k as int)
            &&& views_of(final(order)@) == t.skip(k as int)
        }),
        final(order)@.len() <= cap,
        final(order)@.len() > 0 && final(order)@.last()@ == url@,
{
    let mut kept: Vec<String> = Vec::new();
    let want = chars_of(url);
    let mut i: usize = 0;
    while i < order.len()
        invariant
            0 <= i <= order@.len(),
            want@ == url@,
            views_of(kept@) == without(views_of(order@.take(i as int)), url@),
        decreases order@.len() - i,
    {
        let ghost before = views_of(kept@);
        assert(views_of(order@.take(i + 1)).drop_last() =~= views_of(order@.take(i as int)));
        assert(views_of(order@.take(i + 1)).last() == order@[i as int]@);
        if !crate::text::chars_eq(&chars_of(order[i].as_str()), &want) {
            kept.push(string_of(&chars_of(order[i].as_str())));
            assert(views_of(kept@) =~= before.push(order@[i as int]@));
        }
        i = i + 1;
    }
    assert(order@.take(i as int) =~= order@);
    let ghost t = touched(views_of(order@), url@);
    kept.push(string_of(&want));
    assert(views_of(kept@) =~= t);
    let n = kept.len();
    let k: usize = if n > cap {
        n - cap
    } else {
        0
    };
    let mut evicted: Vec<String> = Vec::new();
    let mut rest: Vec<String> = Vec::new();
    let mut j: usize = 0;
    while j < n
        invariant
            0 <= j <= n,
            n == kept@.len(),
            k <= n,
            views_of(kept@) == t,
            views_of(evicted@) == t.take(if j < k { j as int } else { k as int }),
            views_of(rest@) == (if j <= k { Seq::<Seq<char>>::empty() } else { t.subrange(
                k as int,
                j as int,
            ) }),
        decreases n - j,
    {
        let s = string_of(&chars_of(kept[j].as_str()));
        assert(kept@[j as int]@ == t[j as int]);
        if j < k {
            let ghost before = views_of(evicted@);
            evicted.push(s);
            assert(views_of(evicted@) =~= before.push(t[j as int]));
            assert(t.take(j + 1) =~= t.take(j as int).push(t[j as int]));
        } else {
            let ghost before = views_of(rest@);
            rest.push(s);
            assert(views_of(rest@) =~= before.push(t[j as int]));
            if j == k {
                assert(t.subrange(k as int, j + 1) =~= seq![t[j as int]]);
            } else {
                assert(t.subrange(k as int, j + 1) =~= t.subrange(k as int, j as int).push(
                    t[j as int],
                ));
            }
        }
        j = j + 1;
    }
    assert(t.subrange(k as int, n as int) =~= t.skip(k as int));
    if n <= k {
        assert(k == 0 && n == 0);
    }
    *order = rest;
    proof {
        assert(views_of(order@).len() == order@.len());
        assert(views_of(order@)[order@.len() - 1] == t[t.len() - 1]);
    }
    evicted
}

} // verus!

verus! {

proof fn lemma_without(order: Seq<Seq<char>>, url: Seq<char>)
    ensures
        !without(order, url).contains(url),
        forall|x: Seq<char>| #[trigger] without(order, url).contains(x) ==> order.contains(x),
        order.no_duplicates() ==> without(order, url).no_duplicates(),
    decreases order.len(),
{
    if order.len() > 0 {
        let rest = order.drop_last();
        lemma_without(rest, url);
        let w = without(order, url);
        let wr = without(rest, url);
        assert forall|x: Seq<char>| #[trigger] w.contains(x) implies order.contains(x) by {
            if wr.contains(x) {
                let k = choose|k: int| 0 <= k < rest.len() && rest[k] == x;
                assert(order[k] == x);
            } else {
                assert(order[order.len() - 1] == x);
            }
        }
        if order.no_duplicates() {
            assert(rest.no_duplicates()) by {
                assert forall|a: int, b: int| 0 <= a < rest.len() && 0 <= b < rest.len() && a != b implies rest[a] != rest[b] by {
                    assert(order[a] == rest[a] && order[b] == rest[b]);
                }
            }
            if order.last() != url {
                assert(!wr.contains(order.last())) by {
                    if wr.contains(order.last()) {
                        let k = choose|k: int| 0 <= k < rest.len() && rest[k] == order.last();
                        assert(order[k] == order[order.len() - 1]);
                    }
                }
                assert forall|a: int, b: int| 0 <= a < w.len() && 0 <= b < w.len() && a != b implies w[a] != w[b] by {
                    if a < wr.len() && b < wr.len() {
                    } else if a < wr.len() {
                        assert(wr.contains(w[a]));
                    } else if b < wr.len() {
                        assert(wr.contains(w[b]));
                    }
                }
            }
        }
    }
}

/// Loading a poster keeps the memory cache free of repeated addresses, and
/// the poster just loaded is the newest entry.
pub proof fn lemma_touch_keeps_entries_distinct(order: Seq<Seq<char>>, url: Seq<char>, cap: nat)
    requires
        order.no_duplicates(),
        cap > 0,
    ensures
        ({
            let t = touched(order, url);
            let kept = t.skip(excess(t.len(), cap) as int);
            &&& kept.no_duplicates()
            &&& kept.len() <= cap
            &&& kept.last() == url
        }),
{
    lemma_without(order, url);
    let w = without(order, url);
    let t = touched(order, url);
    assert forall|a: int, b: int| 0 <= a < t.len() && 0 <= b < t.len() && a != b implies t[a] != t[b] by {
        if a < w.len() && b < w.len() {
        } else if a < w.len() {
            assert(w.contains(w[a]));
        } else if b < w.len() {
            assert(w.contains(w[b]));
        }
    }
    let k = excess(t.len(), cap) as int;
    let kept = t.skip(k);
    assert forall|a: int, b: int| 0 <= a < kept.len() && 0 <= b < kept.len() && a != b implies kept[a] != kept[b] by {
        assert(kept[a] == t[a + k] && kept[b] == t[b + k]);
    }
}

} // verus!

verus! {

/// A decoded image of the image crate, carried opaquely.
#[verifier::external_type_specification]
#[verifier::external_body]
pub struct ExDynamicImage(image::DynamicImage);

/// Whether the image crate decodes `bytes` (format guessed from the data).
pub uninterp spec fn image_decodes(bytes: Seq<u8>) -> bool;

/// `image::load_from_memory`: an image exactly when the bytes decode.
#[verifier::external_body]
fn decode_image(bytes: &[u8]) -> (r: Option<image::DynamicImage>)
    ensures
        r is Some <==> image_decodes(bytes@),
{
    image::load_from_memory(bytes).ok()
}

/// A poster read back from the disk cache: used only when the cached bytes
/// decode (a missing or corrupt file means downloading again).
pub fn poster_from_cache(cached: Option<Vec<u8>>) -> (r: Option<image::DynamicImage>)
    ensures
        r is Some <==> (cached matches Some(b) && image_decodes(b@)),
{
    match cached {
        Some(b) => decode_image(b.as_slice()),
        None => None,
    }
}

/// A freshly downloaded poster: the image and the bytes to store in the
/// disk cache, only when the bytes decode (nothing undecodable is cached).
pub fn poster_from_download(bytes: Vec<u8>) -> (r: Option<(image::DynamicImage, Vec<u8>)>)
    ensures
        r is Some <==> image_decodes(bytes@),
        r matches Some(p) ==> p.1@ == bytes@,
{
    match decode_image(bytes.as_slice()) {
        Some(img) => Some((img, bytes)),
        None => None,
    }
}

} // verus!
