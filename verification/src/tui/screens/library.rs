//! Library screen: which movies or series the filter shows, and in what order.
use vstd::prelude::*;

use crate::api::arr_core::ArrCore;
use crate::api::http::{
    append_query_pair, join_url, joined_path, query_pair_fits, set_path_fits, url_parses,
    url_path_of, url_serialization, url_with_path, url_with_query_pair,
};
use crate::api::models::arr::Image;
use crate::api::models::radarr::is_poster;
use crate::order::{in_title_order, order_by_title};
use crate::text::{
    chars_contains, chars_of, chars_starts_with, contains_seq, occurs_at, starts_with, string_of,
    to_lowercase, trim_end_pat, unicode_lowercase, CharPat,
};
use crate::tui::event::Loadable;

verus! {

/// A title passes the filter when the lowercased filter is empty or occurs
/// in the lowercased title.
pub open spec fn title_matches(title: Seq<char>, filter: Seq<char>) -> bool {
    let f = unicode_lowercase(filter);
    f.len() == 0 || contains_seq(unicode_lowercase(title), f)
}

/// The filter is a case-insensitive match anywhere in the title, not only
/// at its start: an empty lowercased filter shows every title, and a title
/// is shown when the lowercased filter appears in the lowercased title at
/// any position `i`.
pub proof fn lemma_filter_matches_anywhere(title: Seq<char>, filter: Seq<char>, i: int)
    ensures
        unicode_lowercase(filter).len() == 0 ==> title_matches(title, filter),
        ({
            let t = unicode_lowercase(title);
            let f = unicode_lowercase(filter);
            0 <= i && i + f.len() <= t.len() && t.subrange(i, i + f.len()) == f
        }) ==> title_matches(title, filter),
{
    let t = unicode_lowercase(title);
    let f = unicode_lowercase(filter);
    if 0 <= i && i + f.len() <= t.len() && t.subrange(i, i + f.len()) == f {
        assert(occurs_at(t, f, i));
    }
}

/// Only such titles are shown: a title passing a non-empty lowercased
/// filter contains it, lowercased, at some position.
pub proof fn lemma_filter_shown_contains(title: Seq<char>, filter: Seq<char>)
    requires
        title_matches(title, filter),
        unicode_lowercase(filter).len() > 0,
    ensures
        exists|i: int|
            0 <= i && i + unicode_lowercase(filter).len() <= unicode_lowercase(title).len()
                && #[trigger] unicode_lowercase(title).subrange(
                i,
                i + unicode_lowercase(filter).len(),
            ) == unicode_lowercase(filter),
{
    let t = unicode_lowercase(title);
    let f = unicode_lowercase(filter);
    let i = choose|i: int| occurs_at(t, f, i);
    assert(t.subrange(i, i + f.len()) == f);
}

/// The indices the library list shows, given the loaded titles and the
/// filter text: exactly the matching items, each once, sorted by
/// case-insensitive title with ties kept in list order; nothing until the
/// data has arrived.
pub fn filtered_indices(items: &Loadable<Vec<String>>, filter: &str) -> (r: Vec<usize>)
    ensures
        !(items is Ready) ==> r@.len() == 0,
        items is Ready ==> {
            let titles = items->Ready_0@;
            &&& forall|k: int| 0 <= k < r@.len() ==> #[trigger] r@[k] < titles.len()
            &&& forall|i: int|
                0 <= i < titles.len() ==> (title_matches(titles[i]@, filter@) <==> r@.contains(
                    i as usize,
                ))
            &&& in_title_order(titles, r@)
            &&& r@.no_duplicates()
            &&& filter@.len() == 0 ==> forall|i: int|
                0 <= i < titles.len() ==> #[trigger] r@.contains(i as usize)
        },
{
    let titles = match items.ready() {
        Some(t) => t,
        None => return Vec::new(),
    };
    let lf = chars_of(to_lowercase(filter).as_str());
    let ghost empty_filter = filter@.len() == 0;
    assert(empty_filter ==> lf@.len() == 0);
    let mut keep: Vec<bool> = Vec::new();
    let mut i: usize = 0;
    while i < titles.len()
        invariant
            0 <= i <= titles@.len(),
            lf@ == unicode_lowercase(filter@),
            keep@.len() == i,
            forall|j: int| 0 <= j < i ==> #[trigger] keep@[j] == title_matches(titles@[j]@, filter@),
        decreases titles@.len() - i,
    {
        let key = chars_of(to_lowercase(titles[i].as_str()).as_str());
        keep.push(lf.len() == 0 || chars_contains(&key, &lf));
        i = i + 1;
    }
    let r = order_by_title(titles.as_slice(), keep.as_slice());
    assert forall|i: int| 0 <= i < titles@.len() implies (title_matches(titles@[i]@, filter@)
        <==> r@.contains(i as usize)) by {
        assert(keep@[i] == title_matches(titles@[i]@, filter@));
    }
    assert forall|i: int| empty_filter && 0 <= i < titles@.len() implies #[trigger] r@.contains(
        i as usize,
    ) by {
        assert(title_matches(titles@[i]@, filter@));
    }
    r
}

/// The proxied (`url`) address of the first poster among `images`.
pub open spec fn first_poster_path(images: Seq<Image>) -> Option<Seq<char>>
    decreases images.len(),
{
    if images.len() == 0 {
        None
    } else if is_poster(images[0]) {
        match images[0].url {
            Some(u) => Some(u@),
            None => None,
        }
    } else {
        first_poster_path(images.drop_first())
    }
}

fn first_poster_path_exec(images: &Vec<Image>) -> (r: Option<&str>)
    ensures
        match r {
            Some(s) => first_poster_path(images@) == Some(s@),
            None => first_poster_path(images@) is None,
        },
{
    let mut i: usize = 0;
    assert(images@.skip(0) =~= images@);
    while i < images.len()
        invariant
            0 <= i <= images@.len(),
            first_poster_path(images@) == first_poster_path(images@.skip(i as int)),
        decreases images@.len() - i,
    {
        let img = &images[i];
        assert(images@.skip(i as int)[0] == images@[i as int]);
        let a = chars_of(img.cover_type.as_str());
        let b = chars_of("poster");
        if crate::text::chars_eq(&a, &b) {
            return match &img.url {
                Some(u) => Some(u.as_str()),
                None => None,
            };
        }
        assert(images@.skip(i as int).drop_first() =~= images@.skip(i + 1));
        i = i + 1;
    }
    None
}

/// Where a library item's poster is fetched from: its remote address when
/// that is an `http` URL; otherwise the service-proxied poster path joined
/// onto the service's base URL with the API key as `apikey` query pair.
/// Nothing when the service is not configured, no poster has a proxied
/// path, or the URL cannot be built.
pub open spec fn arr_poster_spec(
    remote: Option<Seq<char>>,
    base: Option<(Seq<char>, Seq<char>)>,
    images: Seq<Image>,
) -> Option<Seq<char>> {
    if remote is Some && starts_with(remote->0, "http"@) {
        remote
    } else {
        match (base, first_poster_path(images)) {
            (Some((b, key)), Some(rel)) => {
                let tb = trim_end_pat(b, CharPat::Char('/'));
                let s = url_serialization(tb);
                let p = joined_path(url_path_of(s), rel);
                let u = url_with_path(s, p);
                if url_parses(tb) && set_path_fits(s, p) && query_pair_fits(u, "apikey"@, key) {
                    Some(url_with_query_pair(u, "apikey"@, key))
                } else {
                    None
                }
            },
            _ => None,
        }
    }
}

pub open spec fn opt_view(o: Option<&str>) -> Option<Seq<char>> {
    match o {
        Some(s) => Some(s@),
        None => None,
    }
}

pub open spec fn core_view(c: Option<&ArrCore>) -> Option<(Seq<char>, Seq<char>)> {
    match c {
        Some(c) => Some((c.base_spec(), c.key_spec())),
        None => None,
    }
}

pub fn arr_poster_url(remote: Option<&str>, core: Option<&ArrCore>, images: &Vec<Image>) -> (r:
    Option<String>)
    ensures
        r is Some <==> arr_poster_spec(opt_view(remote), core_view(core), images@) is Some,
        r matches Some(s) ==> Some(s@) == arr_poster_spec(opt_view(remote), core_view(core), images@),
{
    if let Some(rm) = remote {
        let cs = chars_of(rm);
        let http = chars_of("http");
        if chars_starts_with(&cs, &http) {
            return Some(string_of(&cs));
        }
    }
    let c = match core {
        Some(c) => c,
        None => return None,
    };
    let rel = match first_poster_path_exec(images) {
        Some(p) => p,
        None => return None,
    };
    let mut u = match join_url(c.base_url(), rel) {
        Ok(u) => u,
        Err(_) => return None,
    };
    let key = c.api_key();
    let su_bytes = u.as_str().as_bytes().len() as u64;
    let name_bytes = "apikey".as_bytes().len() as u64;
    let key_bytes = key.as_bytes().len() as u64;
    if su_bytes > 0xffff_ffff || key_bytes > 0xffff_ffff || name_bytes > 0xffff_ffff {
        return None;
    }
    if su_bytes + 3 * (name_bytes + key_bytes) + 2 > 0xffff_ffff {
        return None;
    }
    append_query_pair(&mut u, "apikey", key);
    Some(string_of(&chars_of(u.as_str())))
}

/// The item under the library cursor: the `selected`-th entry of the shown
/// indices, looked up in the loaded list; nothing past the end of the
/// shown list or before the data has arrived.
pub fn selected_item<'a, T>(items: &'a Loadable<Vec<T>>, shown: &[usize], selected: usize) -> (r:
    Option<&'a T>)
    ensures
        r == (if items is Ready && selected < shown@.len() && (shown@[selected as int] as int)
            < items->Ready_0@.len() {
            Some(&items->Ready_0@[shown@[selected as int] as int])
        } else {
            None
        }),
{
    if selected >= shown.len() {
        return None;
    }
    let i = shown[selected];
    match items {
        Loadable::Ready(v) => if i < v.len() {
            Some(&v[i])
        } else {
            None
        },
        _ => None,
    }
}

} // verus!
