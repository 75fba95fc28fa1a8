use vstd::prelude::*;

use crate::text::{push_str, string_of};

verus! {

/// Plex wraps everything in `MediaContainer`.
#[derive(Debug, Clone)]
pub struct Wrapped<T> {
    pub media_container: T,
}

#[derive(Debug, Clone)]
pub struct Identity {
    pub friendly_name: Option<String>,
    pub version: String,
    pub machine_identifier: Option<String>,
}

#[derive(Debug, Clone)]
pub struct SectionList {
    pub directories: Vec<Section>,
}

#[derive(Debug, Clone)]
pub struct Section {
    pub key: String,
    pub title: String,
    pub kind: String,
}

#[derive(Debug, Clone)]
pub struct SessionList {
    pub size: i64,
    pub sessions: Vec<Session>,
}

#[derive(Debug, Clone)]
pub struct Session {
    pub title: Option<String>,
    /// For episodes: the show title.
    pub grandparent_title: Option<String>,
    pub kind: Option<String>,
    pub user: Option<PlexUser>,
    pub player: Option<PlexPlayer>,
    pub view_offset: Option<i64>,
    pub duration: Option<i64>,
}

#[derive(Debug, Clone)]
pub struct PlexUser {
    pub title: Option<String>,
}

#[derive(Debug, Clone)]
pub struct PlexPlayer {
    pub product: Option<String>,
    pub state: Option<String>,
}

/// "show — episode" for episodes, the title alone otherwise, "?" without one.
pub open spec fn display_title_spec(s: Session) -> Seq<char> {
    match (s.grandparent_title, s.title) {
        (Some(show), Some(ep)) => show@ + " — "@ + ep@,
        (_, Some(t)) => t@,
        _ => "?"@,
    }
}

impl Session {
    pub fn display_title(&self) -> (t: String)
        ensures
            t@ == display_title_spec(*self),
    {
        let mut out: Vec<char> = Vec::new();
        match (&self.grandparent_title, &self.title) {
            (Some(show), Some(ep)) => {
                push_str(&mut out, show.as_str());
                push_str(&mut out, " — ");
                push_str(&mut out, ep.as_str());
            },
            (_, Some(t)) => push_str(&mut out, t.as_str()),
            _ => push_str(&mut out, "?"),
        }
        assert(out@ =~= display_title_spec(*self));
        string_of(&out)
    }
}

} // verus!
