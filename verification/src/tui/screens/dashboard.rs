//! Dashboard: the one-line health summary on each service card.
use vstd::prelude::*;

use crate::api::models::arr::SystemStatus;
use crate::api::models::radarr::Movie;
use crate::text::{chars_of, push_chars, push_str, string_of, sub_chars};
use crate::tui::app::DashboardState;
use crate::tui::event::Loadable;

verus! {

/// At most `max` characters, with `…` marking a cut.
pub open spec fn truncated_text(s: Seq<char>, max: nat) -> Seq<char> {
    if s.len() > max {
        s.take(max as int).push('…')
    } else {
        s
    }
}

pub fn truncate(s: &str, max: usize) -> (r: String)
    ensures
        r@ == truncated_text(s@, max as nat),
{
    let cs = chars_of(s);
    if cs.len() > max {
        let mut out = sub_chars(&cs, 0, max);
        out.push('…');
        string_of(&out)
    } else {
        string_of(&cs)
    }
}

/// How a service card reads.
#[derive(Debug, Clone, Copy, PartialEq, Eq, Structural)]
pub enum StatusKind {
    /// Reachable; the text is its version.
    Healthy,
    /// A check is in flight.
    Checking,
    /// The check failed; the text is the (shortened) reason.
    Down,
    /// Never checked; the text is the hint for the user.
    Idle,
}

#[derive(Debug, Clone)]
pub struct StatusLine {
    pub kind: StatusKind,
    pub text: String,
}

/// Longest failure reason a card shows.
pub const CARD_ERROR_CHARS: usize = 24;

pub open spec fn status_line_spec(
    status: Loadable<String>,
    hint: Seq<char>,
    spinner: Seq<char>,
) -> (StatusKind, Seq<char>) {
    match status {
        Loadable::Ready(v) => (StatusKind::Healthy, v@),
        Loadable::Loading => (StatusKind::Checking, spinner + " checking…"@),
        Loadable::Failed(e) => (StatusKind::Down, truncated_text(e@, CARD_ERROR_CHARS as nat)),
        Loadable::NotAsked => (StatusKind::Idle, hint),
    }
}

pub fn status_line(status: &Loadable<String>, hint: &str, spinner: &str) -> (r: StatusLine)
    ensures
        (r.kind, r.text@) == status_line_spec(*status, hint@, spinner@),
{
    match status {
        Loadable::Ready(v) => StatusLine {
            kind: StatusKind::Healthy,
            text: string_of(&chars_of(v.as_str())),
        },
        Loadable::Loading => {
            let mut t = chars_of(spinner);
            push_str(&mut t, " checking…");
            StatusLine { kind: StatusKind::Checking, text: string_of(&t) }
        },
        Loadable::Failed(e) => StatusLine {
            kind: StatusKind::Down,
            text: truncate(e.as_str(), CARD_ERROR_CHARS),
        },
        Loadable::NotAsked => StatusLine { kind: StatusKind::Idle, text: string_of(&chars_of(hint)) },
    }
}

/// A Radarr/Sonarr card reads as the version it reports, `v` first.
pub open spec fn version_card(
    s: Loadable<SystemStatus>,
    spinner: Seq<char>,
) -> (StatusKind, Seq<char>) {
    match s {
        Loadable::Ready(st) => (StatusKind::Healthy, "v"@ + st.version@),
        Loadable::Loading => (StatusKind::Checking, spinner + " checking…"@),
        Loadable::Failed(e) => (StatusKind::Down, truncated_text(e@, CARD_ERROR_CHARS as nat)),
        Loadable::NotAsked => (StatusKind::Idle, NOT_CONFIGURED@),
    }
}

/// The version text of a Radarr/Sonarr status, with the other states kept.
pub fn version_status(s: &Loadable<SystemStatus>) -> (r: Loadable<String>)
    ensures
        s is Ready <==> r is Ready,
        s is Ready ==> r->Ready_0@ == "v"@ + s->Ready_0.version@,
        s is Loading <==> r is Loading,
        s is NotAsked <==> r is NotAsked,
        s is Failed <==> r is Failed,
        s is Failed ==> r->Failed_0@ == s->Failed_0@,
{
    match s {
        Loadable::Ready(st) => {
            let mut t: Vec<char> = Vec::new();
            t.push('v');
            push_str(&mut t, st.version.as_str());
            proof {
                reveal_strlit("v");
                assert(t@ =~= "v"@ + st.version@);
            }
            Loadable::Ready(string_of(&t))
        },
        Loadable::Loading => Loadable::Loading,
        Loadable::Failed(e) => Loadable::Failed(string_of(&chars_of(e.as_str()))),
        Loadable::NotAsked => Loadable::NotAsked,
    }
}

/// Hint on the card of a service that has never been checked.
pub const NOT_CONFIGURED: &'static str = "not configured";

impl DashboardState {
    pub fn radarr_line(&self, spinner: &str) -> (r: StatusLine)
        ensures
            (r.kind, r.text@) == version_card(self.radarr, spinner@),
    {
        let v = version_status(&self.radarr);
        status_line(&v, NOT_CONFIGURED, spinner)
    }

    pub fn sonarr_line(&self, spinner: &str) -> (r: StatusLine)
        ensures
            (r.kind, r.text@) == version_card(self.sonarr, spinner@),
    {
        let v = version_status(&self.sonarr);
        status_line(&v, NOT_CONFIGURED, spinner)
    }

    pub fn plex_line(&self, spinner: &str) -> (r: StatusLine)
        ensures
            (r.kind, r.text@) == status_line_spec(self.plex, NOT_CONFIGURED@, spinner@),
    {
        status_line(&self.plex, NOT_CONFIGURED, spinner)
    }

    pub fn qbit_line(&self, spinner: &str) -> (r: StatusLine)
        ensures
            (r.kind, r.text@) == status_line_spec(self.qbit, NOT_CONFIGURED@, spinner@),
    {
        status_line(&self.qbit, NOT_CONFIGURED, spinner)
    }

    pub fn nzbget_line(&self, spinner: &str) -> (r: StatusLine)
        ensures
            (r.kind, r.text@) == status_line_spec(self.nzbget, NOT_CONFIGURED@, spinner@),
    {
        status_line(&self.nzbget, NOT_CONFIGURED, spinner)
    }
}

/// How many movies have their file downloaded.
pub open spec fn downloaded_spec(movies: Seq<Movie>) -> nat
    decreases movies.len(),
{
    if movies.len() == 0 {
        0
    } else {
        downloaded_spec(movies.drop_last()) + (if movies.last().has_file == Some(true) {
            1nat
        } else {
            0nat
        })
    }
}

/// The library card's "downloaded" count.
pub fn downloaded_count(movies: &[Movie]) -> (r: usize)
    ensures
        r == downloaded_spec(movies@),
{
    let mut n: usize = 0;
    let mut i: usize = 0;
    while i < movies.len()
        invariant
            0 <= i <= movies@.len(),
            n == downloaded_spec(movies@.take(i as int)),
            n <= i,
        decreases movies@.len() - i,
    {
        assert(movies@.take(i + 1).drop_last() =~= movies@.take(i as int));
        if movies[i].has_file == Some(true) {
            n = n + 1;
        }
        i = i + 1;
    }
    assert(movies@.take(i as int) =~= movies@);
    n
}

/// The sum of the reported episode-file counts (series without one count 0).
pub open spec fn episodes_spec(counts: Seq<Option<i64>>) -> int
    decreases counts.len(),
{
    if counts.len() == 0 {
        0
    } else {
        episodes_spec(counts.drop_last()) + match counts.last() {
            Some(c) => c as int,
            None => 0,
        }
    }
}

proof fn lemma_episodes_bound(counts: Seq<Option<i64>>)
    ensures
        -0x8000_0000_0000_0000 * counts.len() <= episodes_spec(counts) <= 0x7fff_ffff_ffff_ffff
            * counts.len(),
    decreases counts.len(),
{
    if counts.len() > 0 {
        lemma_episodes_bound(counts.drop_last());
    }
}

/// The library card's "episodes on disk" count.
pub fn episodes_on_disk(counts: &[Option<i64>]) -> (r: i128)
    ensures
        r == episodes_spec(counts@),
{
    let mut n: i128 = 0;
    let mut i: usize = 0;
    while i < counts.len()
        invariant
            0 <= i <= counts@.len(),
            n == episodes_spec(counts@.take(i as int)),
        decreases counts@.len() - i,
    {
        proof {
            assert(counts@.take(i + 1).drop_last() =~= counts@.take(i as int));
            lemma_episodes_bound(counts@.take(i + 1));
        }
        if let Some(c) = counts[i] {
            n = n + c as i128;
        }
        i = i + 1;
    }
    assert(counts@.take(i as int) =~= counts@);
    n
}

} // verus!
