//! Missing screen: its rows and its title.
use vstd::prelude::*;

use crate::api::models::radarr::Movie;
use crate::commands::calendar::year_detail;
use crate::text::{chars_of, i64_chars, int_str, push_chars, push_str, string_of};
use crate::tui::theme::Service;

verus! {

/// One wanted item: which service wants it, its id there, and what to show.
#[derive(Debug, Clone)]
pub struct MissingRow {
    pub service: Service,
    pub id: i64,
    pub title: String,
    pub detail: String,
}

/// A missing movie reads as its title and `(year)`.
pub fn movie_row(m: &Movie) -> (r: MissingRow)
    ensures
        r.service == Service::Radarr,
        r.id == m.id,
        r.title@ == m.title@,
        r.detail@ == year_detail(m.year),
{
    let mut detail: Vec<char> = Vec::new();
    if let Some(y) = m.year {
        push_str(&mut detail, "(");
        push_chars(&mut detail, &i64_chars(y as i64));
        push_str(&mut detail, ")");
    }
    MissingRow {
        service: Service::Radarr,
        id: m.id,
        title: string_of(&chars_of(m.title.as_str())),
        detail: string_of(&detail),
    }
}

/// A missing episode reads as its series title and `S01E02 — title`.
pub fn episode_row(id: i64, series_title: &str, code: &str, title: Option<&str>) -> (r: MissingRow)
    ensures
        r.service == Service::Sonarr,
        r.id == id,
        r.title@ == series_title@,
        r.detail@ == code@ + " — "@ + (match title {
            Some(t) => t@,
            None => Seq::<char>::empty(),
        }),
{
    let mut detail = chars_of(code);
    push_str(&mut detail, " — ");
    if let Some(t) = title {
        push_str(&mut detail, t);
    }
    MissingRow {
        service: Service::Sonarr,
        id,
        title: string_of(&chars_of(series_title)),
        detail: string_of(&detail),
    }
}

/// The panel title with the servers' totals (0 for a list not loaded).
pub open spec fn missing_title_spec(movies: i64, episodes: i64) -> Seq<char> {
    "Missing — "@ + int_str(movies as int) + " movies · "@ + int_str(episodes as int) + " episodes"@
}

pub fn missing_title(movies: i64, episodes: i64) -> (r: String)
    ensures
        r@ == missing_title_spec(movies, episodes),
{
    let mut t = chars_of("Missing — ");
    push_chars(&mut t, &i64_chars(movies));
    push_str(&mut t, " movies · ");
    push_chars(&mut t, &i64_chars(episodes));
    push_str(&mut t, " episodes");
    string_of(&t)
}

/// Shown when everything arrived and nothing is missing.
pub const LIBRARY_COMPLETE: &'static str = "nothing missing, library is complete";

} // verus!
