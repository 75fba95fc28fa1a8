//! Movie commands: picking the lookup hit to add, resolving a quality
//! profile or root folder named on the command line, and the library list.
use vstd::prelude::*;

use crate::api::models::arr::{QualityProfile, RootFolder};
use crate::api::models::radarr::Movie;
use crate::cli::LibraryFilter;
use crate::error::{CliarrError, Result};
use crate::order::{first_match, in_title_order, lemma_first_match, order_by_title};
use crate::text::{
    chars_eq, chars_eq_ignore_ascii_case, chars_of, eq_ignore_ascii_case, i64_chars, int_str,
    join_strings, joined, push_chars, push_str, string_of, string_views, trim_end_chars,
    trim_end_pat, CharPat,
};

verus! {

/// A quality profile is named by its name (ASCII case ignored) or its id.
pub open spec fn names_profile(p: QualityProfile, w: Seq<char>) -> bool {
    eq_ignore_ascii_case(p.name@, w) || int_str(p.id as int) == w
}

/// The first profile the user's word names, if any.
pub open spec fn first_named_profile(profiles: Seq<QualityProfile>, w: Seq<char>) -> Option<nat>
    decreases profiles.len(),
{
    if profiles.len() == 0 {
        None
    } else if names_profile(profiles[0], w) {
        Some(0)
    } else {
        match first_named_profile(profiles.drop_first(), w) {
            Some(i) => Some(i + 1),
            None => None,
        }
    }
}

pub open spec fn profile_names(profiles: Seq<QualityProfile>) -> Seq<Seq<char>> {
    profiles.map_values(|p: QualityProfile| p.name@)
}

pub open spec fn unknown_profile_message(w: Seq<char>, names: Seq<Seq<char>>) -> Seq<char> {
    "no quality profile \""@ + w + "\" — available: "@ + joined(names, ", "@)
}

proof fn lemma_first_named_profile(profiles: Seq<QualityProfile>, w: Seq<char>, i: int)
    requires
        0 <= i <= profiles.len(),
        forall|j: int| 0 <= j < i ==> !names_profile(#[trigger] profiles[j], w),
    ensures
        i < profiles.len() && names_profile(profiles[i], w) ==> first_named_profile(profiles, w)
            == Some(i as nat),
        i == profiles.len() ==> first_named_profile(profiles, w) is None,
    decreases i,
{
    if i > 0 {
        lemma_first_named_profile(profiles.drop_first(), w, i - 1);
    }
}

/// The id of the quality profile named on the command line; when none
/// matches, the error lists the available names.
pub fn resolve_profile(profiles: &[QualityProfile], wanted: &str) -> (r: Result<i64>)
    ensures
        match first_named_profile(profiles@, wanted@) {
            Some(i) => r == Ok::<i64, CliarrError>(profiles@[i as int].id),
            None => r matches Err(e) && e is Other && e->Other_0@ == unknown_profile_message(
                wanted@,
                profile_names(profiles@),
            ),
        },
{
    let w = chars_of(wanted);
    let mut i: usize = 0;
    while i < profiles.len()
        invariant
            0 <= i <= profiles@.len(),
            w@ == wanted@,
            forall|j: int| 0 <= j < i ==> !names_profile(#[trigger] profiles@[j], wanted@),
        decreases profiles@.len() - i,
    {
        let p = &profiles[i];
        let by_name = chars_eq_ignore_ascii_case(&chars_of(p.name.as_str()), &w);
        let by_id = chars_eq(&i64_chars(p.id), &w);
        if by_name || by_id {
            proof {
                lemma_first_named_profile(profiles@, wanted@, i as int);
            }
            return Ok(p.id);
        }
        i = i + 1;
    }
    proof {
        lemma_first_named_profile(profiles@, wanted@, i as int);
    }
    let mut names: Vec<String> = Vec::new();
    let mut k: usize = 0;
    while k < profiles.len()
        invariant
            0 <= k <= profiles@.len(),
            string_views(names@) == profile_names(profiles@.take(k as int)),
        decreases profiles@.len() - k,
    {
        let ghost before = names@;
        names.push(string_of(&chars_of(profiles[k].name.as_str())));
        assert(string_views(names@) =~= string_views(before).push(profiles@[k as int].name@));
        assert(profile_names(profiles@.take(k + 1)) =~= profile_names(profiles@.take(k as int)).push(
            profiles@[k as int].name@,
        ));
        k = k + 1;
    }
    assert(profiles@.take(k as int) =~= profiles@);
    let mut m = chars_of("no quality profile \"");
    push_str(&mut m, wanted);
    push_str(&mut m, "\" — available: ");
    let list = join_strings(names.as_slice(), ", ");
    push_str(&mut m, list.as_str());
    proof {
        reveal_strlit("no quality profile \"");
        reveal_strlit("\" — available: ");
        assert(m@ =~= unknown_profile_message(wanted@, profile_names(profiles@)));
    }
    Err(CliarrError::Other(string_of(&m)))
}

/// A root folder is named by its path; trailing slashes do not count.
pub open spec fn names_root(r: RootFolder, w: Seq<char>) -> bool {
    trim_end_pat(r.path@, CharPat::Char('/')) == trim_end_pat(w, CharPat::Char('/'))
}

pub open spec fn first_named_root(roots: Seq<RootFolder>, w: Seq<char>) -> Option<nat>
    decreases roots.len(),
{
    if roots.len() == 0 {
        None
    } else if names_root(roots[0], w) {
        Some(0)
    } else {
        match first_named_root(roots.drop_first(), w) {
            Some(i) => Some(i + 1),
            None => None,
        }
    }
}

pub open spec fn root_paths(roots: Seq<RootFolder>) -> Seq<Seq<char>> {
    roots.map_values(|r: RootFolder| r.path@)
}

pub open spec fn unknown_root_message(w: Seq<char>, paths: Seq<Seq<char>>) -> Seq<char> {
    "no root folder \""@ + w + "\" — available: "@ + joined(paths, ", "@)
}

proof fn lemma_first_named_root(roots: Seq<RootFolder>, w: Seq<char>, i: int)
    requires
        0 <= i <= roots.len(),
        forall|j: int| 0 <= j < i ==> !names_root(#[trigger] roots[j], w),
    ensures
        i < roots.len() && names_root(roots[i], w) ==> first_named_root(roots, w) == Some(
            i as nat,
        ),
        i == roots.len() ==> first_named_root(roots, w) is None,
    decreases i,
{
    if i > 0 {
        lemma_first_named_root(roots.drop_first(), w, i - 1);
    }
}

/// The path of the root folder named on the command line (as the server
/// spells it); when none matches, the error lists the available paths.
pub fn resolve_root(roots: &[RootFolder], wanted: &str) -> (r: Result<String>)
    ensures
        match first_named_root(roots@, wanted@) {
            Some(i) => r matches Ok(p) && p@ == roots@[i as int].path@,
            None => r matches Err(e) && e is Other && e->Other_0@ == unknown_root_message(
                wanted@,
                root_paths(roots@),
            ),
        },
{
    let w = trim_end_chars(&chars_of(wanted), CharPat::Char('/'));
    let mut i: usize = 0;
    while i < roots.len()
        invariant
            0 <= i <= roots@.len(),
            w@ == trim_end_pat(wanted@, CharPat::Char('/')),
            forall|j: int| 0 <= j < i ==> !names_root(#[trigger] roots@[j], wanted@),
        decreases roots@.len() - i,
    {
        let p = trim_end_chars(&chars_of(roots[i].path.as_str()), CharPat::Char('/'));
        if chars_eq(&p, &w) {
            proof {
                lemma_first_named_root(roots@, wanted@, i as int);
            }
            return Ok(string_of(&chars_of(roots[i].path.as_str())));
        }
        i = i + 1;
    }
    proof {
        lemma_first_named_root(roots@, wanted@, i as int);
    }
    let mut paths: Vec<String> = Vec::new();
    let mut k: usize = 0;
    while k < roots.len()
        invariant
            0 <= k <= roots@.len(),
            string_views(paths@) == root_paths(roots@.take(k as int)),
        decreases roots@.len() - k,
    {
        let ghost before = paths@;
        paths.push(string_of(&chars_of(roots[k].path.as_str())));
        assert(string_views(paths@) =~= string_views(before).push(roots@[k as int].path@));
        assert(root_paths(roots@.take(k + 1)) =~= root_paths(roots@.take(k as int)).push(
            roots@[k as int].path@,
        ));
        k = k + 1;
    }
    assert(roots@.take(k as int) =~= roots@);
    let mut m = chars_of("no root folder \"");
    push_str(&mut m, wanted);
    push_str(&mut m, "\" — available: ");
    let list = join_strings(paths.as_slice(), ", ");
    push_str(&mut m, list.as_str());
    proof {
        reveal_strlit("no root folder \"");
        reveal_strlit("\" — available: ");
        assert(m@ =~= unknown_root_message(wanted@, root_paths(roots@)));
    }
    Err(CliarrError::Other(string_of(&m)))
}

/// Whether the library list keeps a movie under the given filter (absent
/// flags count as false).
pub open spec fn movie_kept(m: Movie, filter: Option<LibraryFilter>) -> bool {
    let monitored = m.monitored == Some(true);
    let has_file = m.has_file == Some(true);
    match filter {
        None => true,
        Some(LibraryFilter::Missing) => !has_file && monitored,
        Some(LibraryFilter::Monitored) => monitored,
        Some(LibraryFilter::Unmonitored) => !monitored,
    }
}

/// Whether the series list keeps a series under the given filter: an
/// absent `monitored` flag counts as false, and `episodes_missing` says
/// whether its statistics report fewer than all of its episodes on disk.
pub open spec fn series_kept_spec(
    monitored: Option<bool>,
    episodes_missing: bool,
    filter: Option<LibraryFilter>,
) -> bool {
    let m = monitored == Some(true);
    match filter {
        None => true,
        Some(LibraryFilter::Missing) => m && episodes_missing,
        Some(LibraryFilter::Monitored) => m,
        Some(LibraryFilter::Unmonitored) => !m,
    }
}

pub fn series_kept(monitored: Option<bool>, episodes_missing: bool, filter: Option<LibraryFilter>) -> (r:
    bool)
    ensures
        r == series_kept_spec(monitored, episodes_missing, filter),
{
    let m = match monitored {
        Some(b) => b,
        None => false,
    };
    match filter {
        None => true,
        Some(LibraryFilter::Missing) => m && episodes_missing,
        Some(LibraryFilter::Monitored) => m,
        Some(LibraryFilter::Unmonitored) => !m,
    }
}

pub open spec fn movie_titles(movies: Seq<Movie>) -> Seq<String> {
    movies.map_values(|m: Movie| m.title)
}

/// The order `movie list` prints: the kept movies, each once, by
/// case-insensitive title with ties in library order.
pub fn movie_list_order(movies: &[Movie], filter: Option<LibraryFilter>) -> (r: Vec<usize>)
    ensures
        forall|k: int| 0 <= k < r@.len() ==> #[trigger] r@[k] < movies@.len(),
        forall|i: int|
            0 <= i < movies@.len() ==> (movie_kept(movies@[i], filter) <==> r@.contains(
                i as usize,
            )),
        in_title_order(movie_titles(movies@), r@),
        r@.no_duplicates(),
{
    let mut titles: Vec<String> = Vec::new();
    let mut keep: Vec<bool> = Vec::new();
    let mut i: usize = 0;
    while i < movies.len()
        invariant
            0 <= i <= movies@.len(),
            titles@.len() == i,
            keep@.len() == i,
            forall|j: int| 0 <= j < i ==> #[trigger] titles@[j]@ == movies@[j].title@,
            forall|j: int| 0 <= j < i ==> #[trigger] keep@[j] == movie_kept(movies@[j], filter),
        decreases movies@.len() - i,
    {
        let m = &movies[i];
        let monitored = match m.monitored {
            Some(b) => b,
            None => false,
        };
        let has_file = match m.has_file {
            Some(b) => b,
            None => false,
        };
        let kept = match filter {
            None => true,
            Some(LibraryFilter::Missing) => !has_file && monitored,
            Some(LibraryFilter::Monitored) => monitored,
            Some(LibraryFilter::Unmonitored) => !monitored,
        };
        titles.push(string_of(&chars_of(m.title.as_str())));
        keep.push(kept);
        i = i + 1;
    }
    let r = order_by_title(titles.as_slice(), keep.as_slice());
    proof {
        assert forall|i: int| 0 <= i < movies@.len() implies (movie_kept(movies@[i], filter)
            <==> r@.contains(i as usize)) by {
            assert(keep@[i] == movie_kept(movies@[i], filter));
        }
        lemma_same_titles_same_order(titles@, movie_titles(movies@), r@);
    }
    r
}

/// Title order depends only on the titles' text.
proof fn lemma_same_titles_same_order(a: Seq<String>, b: Seq<String>, r: Seq<usize>)
    requires
        a.len() == b.len(),
        forall|j: int| 0 <= j < a.len() ==> #[trigger] a[j]@ == b[j]@,
        forall|k: int| 0 <= k < r.len() ==> #[trigger] r[k] < a.len(),
        in_title_order(a, r),
    ensures
        in_title_order(b, r),
{
    assert forall|p: int, q: int| 0 <= p < q < r.len() implies #[trigger] crate::order::listed_before(
        b,
        r[p] as int,
        r[q] as int,
    ) by {
        assert(crate::order::listed_before(a, r[p] as int, r[q] as int));
        assert(a[r[p] as int]@ == b[r[p] as int]@);
        assert(a[r[q] as int]@ == b[r[q] as int]@);
    }
}

} // verus!

verus! {

/// What the add and remove commands read of a movie or series.
#[derive(Debug, Clone)]
pub struct LibraryItem {
    /// Library id; 0 for lookup hits not in the library.
    pub id: i64,
    /// TMDB id of a movie, TVDB id of a series.
    pub ext_id: i64,
    pub title: String,
}

pub open spec fn not_found_message(noun: Seq<char>, scheme: Seq<char>, ext_id: i64) -> Seq<char> {
    "no "@ + noun + " found for "@ + scheme + ":"@ + int_str(ext_id as int)
}

pub open spec fn already_added_message(title: Seq<char>, id: i64) -> Seq<char> {
    "\""@ + title + "\" is already in the library (id "@ + int_str(id as int) + ")"@
}

/// `add`: the lookup hit with the requested external id (the first one),
/// which must not be in the library yet (library items have an id above 0).
/// `noun` and `scheme` name the kind of item and id in the error
/// (`movie`/`tmdb`, `series`/`tvdb`).
pub fn pick_new_item(hits: &[LibraryItem], ext_id: i64, noun: &str, scheme: &str) -> (r: Result<
    usize,
>)
    ensures
        match first_match(hits@, |h: LibraryItem| h.ext_id == ext_id) {
            None => r matches Err(e) && e is Other && e->Other_0@ == not_found_message(
                noun@,
                scheme@,
                ext_id,
            ),
            Some(i) => if hits@[i as int].id > 0 {
                r matches Err(e) && e is Other && e->Other_0@ == already_added_message(
                    hits@[i as int].title@,
                    hits@[i as int].id,
                )
            } else {
                r == Ok::<usize, CliarrError>(i as usize)
            },
        },
{
    let ghost p = |h: LibraryItem| h.ext_id == ext_id;
    let mut i: usize = 0;
    while i < hits.len()
        invariant
            0 <= i <= hits@.len(),
            p == (|h: LibraryItem| h.ext_id == ext_id),
            forall|j: int| 0 <= j < i ==> !p(#[trigger] hits@[j]),
        decreases hits@.len() - i,
    {
        if hits[i].ext_id == ext_id {
            proof {
                lemma_first_match(hits@, p, i as int);
            }
            let h = &hits[i];
            if h.id > 0 {
                let mut msg = chars_of("\"");
                push_str(&mut msg, h.title.as_str());
                push_str(&mut msg, "\" is already in the library (id ");
                push_chars(&mut msg, &i64_chars(h.id));
                push_str(&mut msg, ")");
                return Err(CliarrError::Other(string_of(&msg)));
            }
            return Ok(i);
        }
        i = i + 1;
    }
    proof {
        lemma_first_match(hits@, p, i as int);
    }
    let mut msg = chars_of("no ");
    push_str(&mut msg, noun);
    push_str(&mut msg, " found for ");
    push_str(&mut msg, scheme);
    push_str(&mut msg, ":");
    push_chars(&mut msg, &i64_chars(ext_id));
    Err(CliarrError::Other(string_of(&msg)))
}

pub open spec fn not_in_library_message(noun: Seq<char>, id: i64) -> Seq<char> {
    "no "@ + noun + " with id "@ + int_str(id as int) + " in the library"@
}

/// `remove`: the library item with the given id (the first one).
pub fn find_library_item(items: &[LibraryItem], id: i64, noun: &str) -> (r: Result<usize>)
    ensures
        match first_match(items@, |h: LibraryItem| h.id == id) {
            None => r matches Err(e) && e is Other && e->Other_0@ == not_in_library_message(
                noun@,
                id,
            ),
            Some(i) => r == Ok::<usize, CliarrError>(i as usize),
        },
{
    let ghost p = |h: LibraryItem| h.id == id;
    let mut i: usize = 0;
    while i < items.len()
        invariant
            0 <= i <= items@.len(),
            p == (|h: LibraryItem| h.id == id),
            forall|j: int| 0 <= j < i ==> !p(#[trigger] items@[j]),
        decreases items@.len() - i,
    {
        if items[i].id == id {
            proof {
                lemma_first_match(items@, p, i as int);
            }
            return Ok(i);
        }
        i = i + 1;
    }
    proof {
        lemma_first_match(items@, p, i as int);
    }
    let mut msg = chars_of("no ");
    push_str(&mut msg, noun);
    push_str(&mut msg, " with id ");
    push_chars(&mut msg, &i64_chars(id));
    push_str(&mut msg, " in the library");
    Err(CliarrError::Other(string_of(&msg)))
}

/// The confirmation asked before removing a library item.
pub open spec fn remove_question_spec(title: Seq<char>, delete_files: bool) -> Seq<char> {
    "Remove \""@ + title + "\""@ + (if delete_files {
        " and delete its files"@
    } else {
        Seq::empty()
    }) + "?"@
}

pub fn remove_question(title: &str, delete_files: bool) -> (r: String)
    ensures
        r@ == remove_question_spec(title@, delete_files),
{
    let mut m = chars_of("Remove \"");
    push_str(&mut m, title);
    push_str(&mut m, "\"");
    if delete_files {
        push_str(&mut m, " and delete its files");
    }
    push_str(&mut m, "?");
    proof {
        reveal_strlit("Remove \"");
        assert(m@ =~= remove_question_spec(title@, delete_files));
    }
    string_of(&m)
}

} // verus!
