//! Downloads screen: the unified queue list's cursor, its empty states, and
//! what the delete/blocklist/pause keys ask for.
use vstd::prelude::*;

use crate::text::{
    chars_of, int_str, join_strings, joined, push_str, string_of, string_views, to_lowercase,
    unicode_lowercase,
};
use crate::tui::app::ConfirmAction;
use crate::tui::event::Loadable;
use crate::tui::theme::{service_label, Service};

verus! {

/// The downloads screen's lists (queues of type `Q`, torrents `T`, NZB
/// groups `N`), its cursor, and the number of the latest refresh.
pub struct DownloadsState<Q, T, N> {
    pub radarr_queue: Loadable<Vec<Q>>,
    pub sonarr_queue: Loadable<Vec<Q>>,
    pub torrents: Loadable<Vec<T>>,
    pub nzb: Loadable<Vec<N>>,
    pub selected: usize,
    /// Bumped per refresh; older refreshes answering late are dropped.
    pub seq: u64,
}

/// The request number after `seq` (wrapping).
pub open spec fn next_seq(seq: u64) -> u64 {
    if seq == u64::MAX {
        0
    } else {
        (seq + 1) as u64
    }
}

impl<Q, T, N> DownloadsState<Q, T, N> {
    /// Start a refresh: a new request number, every list and the cursor
    /// left as they are (old rows stay on screen until the answers come;
    /// answers to earlier requests are dropped from now on).
    pub fn begin_refresh(&mut self) -> (seq: u64)
        ensures
            seq == next_seq(old(self).seq),
            final(self).seq == seq,
            final(self).radarr_queue == old(self).radarr_queue,
            final(self).sonarr_queue == old(self).sonarr_queue,
            final(self).torrents == old(self).torrents,
            final(self).nzb == old(self).nzb,
            final(self).selected == old(self).selected,
    {
        self.seq = if self.seq == u64::MAX {
            0
        } else {
            self.seq + 1
        };
        self.seq
    }
}

/// Stable identity of a download row across queue refreshes.
#[derive(Debug, Clone)]
pub enum DownloadKey {
    Arr(Service, i64),
    Torrent(String),
    Nzb(i64),
}

pub open spec fn same_download(a: DownloadKey, b: DownloadKey) -> bool {
    match (a, b) {
        (DownloadKey::Arr(s1, i1), DownloadKey::Arr(s2, i2)) => s1 == s2 && i1 == i2,
        (DownloadKey::Torrent(h1), DownloadKey::Torrent(h2)) => h1@ == h2@,
        (DownloadKey::Nzb(i1), DownloadKey::Nzb(i2)) => i1 == i2,
        _ => false,
    }
}

fn same_download_exec(a: &DownloadKey, b: &DownloadKey) -> (r: bool)
    ensures
        r == same_download(*a, *b),
{
    match (a, b) {
        (DownloadKey::Arr(s1, i1), DownloadKey::Arr(s2, i2)) => *s1 == *s2 && *i1 == *i2,
        (DownloadKey::Torrent(h1), DownloadKey::Torrent(h2)) => *h1 == *h2,
        (DownloadKey::Nzb(i1), DownloadKey::Nzb(i2)) => *i1 == *i2,
        _ => false,
    }
}

/// Position of the first row that is the given download, if any.
pub open spec fn first_row_of(rows: Seq<DownloadKey>, k: DownloadKey) -> Option<nat>
    decreases rows.len(),
{
    if rows.len() == 0 {
        None
    } else if same_download(rows[0], k) {
        Some(0)
    } else {
        match first_row_of(rows.drop_first(), k) {
            Some(i) => Some(i + 1),
            None => None,
        }
    }
}

/// Where the cursor goes after the rows were rebuilt: onto the row that was
/// selected before if it is still listed, else the old position clamped into
/// the list.
pub open spec fn restored_selection(
    rows: Seq<DownloadKey>,
    prev: Option<DownloadKey>,
    selected: int,
) -> int {
    let found = match prev {
        Some(k) => first_row_of(rows, k),
        None => None,
    };
    match found {
        Some(i) => i as int,
        None => if rows.len() == 0 {
            0
        } else if selected < rows.len() - 1 {
            selected
        } else {
            rows.len() - 1
        },
    }
}

proof fn lemma_first_row_of(rows: Seq<DownloadKey>, k: DownloadKey, i: int)
    requires
        0 <= i <= rows.len(),
        forall|j: int| 0 <= j < i ==> !same_download(#[trigger] rows[j], k),
    ensures
        i < rows.len() && same_download(rows[i], k) ==> first_row_of(rows, k) == Some(i as nat),
        i == rows.len() ==> first_row_of(rows, k) is None,
    decreases i,
{
    if i > 0 {
        lemma_first_row_of(rows.drop_first(), k, i - 1);
    }
}

pub fn restore_download_selection(
    rows: &[DownloadKey],
    prev: Option<DownloadKey>,
    selected: usize,
) -> (r: usize)
    ensures
        r == restored_selection(rows@, prev, selected as int),
        rows@.len() > 0 ==> r < rows@.len(),
{
    if let Some(key) = &prev {
        let mut i: usize = 0;
        while i < rows.len()
            invariant
                0 <= i <= rows@.len(),
                prev == Some(*key),
                forall|j: int| 0 <= j < i ==> !same_download(#[trigger] rows@[j], *key),
            decreases rows@.len() - i,
        {
            if same_download_exec(&rows[i], key) {
                proof {
                    lemma_first_row_of(rows@, *key, i as int);
                }
                return i;
            }
            i = i + 1;
        }
        proof {
            lemma_first_row_of(rows@, *key, i as int);
        }
    }
    if rows.len() == 0 {
        0
    } else if selected < rows.len() - 1 {
        selected
    } else {
        rows.len() - 1
    }
}

/// What a list panel shows in its body.
#[derive(Debug, Clone, Copy, PartialEq, Eq, Structural)]
pub enum ListBody {
    /// The rows themselves.
    Rows,
    /// Nothing listed yet and a fetch is in flight.
    Loading,
    /// Everything arrived, nothing failed, and there is nothing to list.
    Empty,
    /// Nothing to list because fetches failed; the errors say why.
    ErrorsOnly,
}

pub open spec fn list_body_spec(rows: nat, loading: bool, errors: nat) -> ListBody {
    if rows > 0 {
        ListBody::Rows
    } else if loading {
        ListBody::Loading
    } else if errors == 0 {
        ListBody::Empty
    } else {
        ListBody::ErrorsOnly
    }
}

pub fn list_body(rows: usize, loading: bool, errors: usize) -> (r: ListBody)
    ensures
        r == list_body_spec(rows as nat, loading, errors as nat),
{
    if rows > 0 {
        ListBody::Rows
    } else if loading {
        ListBody::Loading
    } else if errors == 0 {
        ListBody::Empty
    } else {
        ListBody::ErrorsOnly
    }
}

/// `label: error` for each source whose fetch failed, in source order.
pub open spec fn fetch_errors_spec(sources: Seq<(&'static str, Option<String>)>) -> Seq<Seq<char>>
    decreases sources.len(),
{
    if sources.len() == 0 {
        Seq::empty()
    } else {
        let rest = fetch_errors_spec(sources.drop_last());
        match sources.last().1 {
            Some(e) => rest.push(sources.last().0@ + ": "@ + e@),
            None => rest,
        }
    }
}

pub fn fetch_errors(sources: &[(&'static str, Option<String>)]) -> (r: Vec<String>)
    ensures
        r@.map_values(|s: String| s@) == fetch_errors_spec(sources@),
{
    let mut out: Vec<String> = Vec::new();
    let mut i: usize = 0;
    while i < sources.len()
        invariant
            0 <= i <= sources@.len(),
            out@.map_values(|s: String| s@) == fetch_errors_spec(sources@.take(i as int)),
        decreases sources@.len() - i,
    {
        assert(sources@.take(i + 1).drop_last() =~= sources@.take(i as int));
        let (label, err) = &sources[i];
        if let Some(e) = err {
            let mut t = chars_of(label);
            push_str(&mut t, ": ");
            push_str(&mut t, e.as_str());
            let ghost before = out@.map_values(|s: String| s@);
            out.push(string_of(&t));
            assert(out@.map_values(|s: String| s@) =~= before.push(t@));
        }
        i = i + 1;
    }
    assert(sources@.take(i as int) =~= sources@);
    out
}

/// The error line above a list: `✗ ` and the errors joined by ` · `; no
/// line when nothing failed.
pub fn fetch_error_line(errors: &[String]) -> (r: Option<String>)
    ensures
        errors@.len() == 0 ==> r is None,
        errors@.len() > 0 ==> (r matches Some(l) && l@ == "✗ "@ + joined(string_views(errors@), " · "@)),
{
    if errors.len() == 0 {
        return None;
    }
    let mut t = chars_of("✗ ");
    let j = join_strings(errors, " · ");
    push_str(&mut t, j.as_str());
    Some(string_of(&t))
}

/// Shown when every queue arrived and all are empty.
pub const NO_ACTIVE_DOWNLOADS: &'static str = "no active downloads";

/// The download a row stands for, with the name the dialogs show.
#[derive(Debug, Clone)]
pub enum DownloadTarget {
    Arr { service: Service, id: i64, title: String },
    Torrent { hash: String, name: String },
    Nzb { id: i64, name: String },
}

/// A confirmation dialog: its question, the optional extra toggle (label
/// and starting value), and what accepting it does.
#[derive(Debug, Clone)]
pub struct ConfirmDialog {
    pub msg: String,
    pub toggle_label: Option<&'static str>,
    pub toggle: bool,
    pub action: ConfirmAction,
}

pub open spec fn quoted(s: Seq<char>) -> Seq<char> {
    "\""@ + s + "\""@
}

/// The `d` key: remove a queue item (also from its download client unless
/// toggled off), or delete a torrent (keeping its data unless toggled on),
/// or delete an NZB.
pub fn delete_confirm(t: &DownloadTarget) -> (r: ConfirmDialog)
    ensures
        match *t {
            DownloadTarget::Arr { service, id, title } => {
                &&& r.msg@ == "Remove "@ + quoted(title@) + " from the "@ + unicode_lowercase(
                    service_label(service),
                ) + " queue?"@
                &&& r.toggle_label matches Some(l) && l@ == "also remove from download client"@
                &&& r.toggle
                &&& r.action matches ConfirmAction::RemoveQueueItem { radarr, id: i, blocklist }
                    && radarr == (service == Service::Radarr) && i == id && !blocklist
            },
            DownloadTarget::Torrent { hash, name } => {
                &&& r.msg@ == "Delete torrent "@ + quoted(name@) + "?"@
                &&& r.toggle_label matches Some(l) && l@ == "also delete data"@
                &&& !r.toggle
                &&& r.action matches ConfirmAction::DeleteTorrent { hash: h, name: n } && h@
                    == hash@ && n@ == name@
            },
            DownloadTarget::Nzb { id, name } => {
                &&& r.msg@ == "Delete "@ + quoted(name@) + " from the NZBGet queue?"@
                &&& r.toggle_label is None
                &&& !r.toggle
                &&& r.action matches ConfirmAction::DeleteNzb { id: i, name: n } && i == id && n@
                    == name@
            },
        },
{
    match t {
        DownloadTarget::Arr { service, id, title } => {
            let mut m = chars_of("Remove \"");
            push_str(&mut m, title.as_str());
            push_str(&mut m, "\" from the ");
            let lower = to_lowercase(service.label());
            push_str(&mut m, lower.as_str());
            push_str(&mut m, " queue?");
            proof {
                reveal_strlit("Remove \"");
                reveal_strlit("Remove ");
                reveal_strlit("\"");
                reveal_strlit("\" from the ");
                reveal_strlit(" from the ");
                assert(m@ =~= "Remove "@ + quoted(title@) + " from the "@ + unicode_lowercase(
                    service_label(*service),
                ) + " queue?"@);
            }
            ConfirmDialog {
                msg: string_of(&m),
                toggle_label: Some("also remove from download client"),
                toggle: true,
                action: ConfirmAction::RemoveQueueItem {
                    radarr: *service == Service::Radarr,
                    id: *id,
                    blocklist: false,
                },
            }
        },
        DownloadTarget::Torrent { hash, name } => {
            let mut m = chars_of("Delete torrent \"");
            push_str(&mut m, name.as_str());
            push_str(&mut m, "\"?");
            proof {
                reveal_strlit("Delete torrent \"");
                reveal_strlit("Delete torrent ");
                reveal_strlit("\"");
                reveal_strlit("\"?");
                reveal_strlit("?");
                assert(m@ =~= "Delete torrent "@ + quoted(name@) + "?"@);
            }
            ConfirmDialog {
                msg: string_of(&m),
                toggle_label: Some("also delete data"),
                toggle: false,
                action: ConfirmAction::DeleteTorrent {
                    hash: string_of(&chars_of(hash.as_str())),
                    name: string_of(&chars_of(name.as_str())),
                },
            }
        },
        DownloadTarget::Nzb { id, name } => {
            let mut m = chars_of("Delete \"");
            push_str(&mut m, name.as_str());
            push_str(&mut m, "\" from the NZBGet queue?");
            proof {
                reveal_strlit("Delete \"");
                reveal_strlit("Delete ");
                reveal_strlit("\"");
                reveal_strlit("\" from the NZBGet queue?");
                reveal_strlit(" from the NZBGet queue?");
                assert(m@ =~= "Delete "@ + quoted(name@) + " from the NZBGet queue?"@);
            }
            ConfirmDialog {
                msg: string_of(&m),
                toggle_label: None,
                toggle: false,
                action: ConfirmAction::DeleteNzb { id: *id, name: string_of(&chars_of(name.as_str())) },
            }
        },
    }
}

/// The `b` key: blocklist a Radarr/Sonarr queue item and remove it from
/// the queue (also from its download client unless toggled off); torrent
/// and NZB rows have nothing to blocklist.
pub fn blocklist_confirm(t: &DownloadTarget) -> (r: Option<ConfirmDialog>)
    ensures
        match *t {
            DownloadTarget::Arr { service, id, title } => r matches Some(d) && {
                &&& d.msg@ == "Blocklist "@ + quoted(title@) + " and remove it from the queue?"@
                &&& d.toggle_label matches Some(l) && l@ == "also remove from download client"@
                &&& d.toggle
                &&& d.action matches ConfirmAction::RemoveQueueItem { radarr, id: i, blocklist }
                    && radarr == (service == Service::Radarr) && i == id && blocklist
            },
            _ => r is None,
        },
{
    match t {
        DownloadTarget::Arr { service, id, title } => {
            let mut m = chars_of("Blocklist \"");
            push_str(&mut m, title.as_str());
            push_str(&mut m, "\" and remove it from the queue?");
            proof {
                reveal_strlit("Blocklist \"");
                reveal_strlit("Blocklist ");
                reveal_strlit("\"");
                reveal_strlit("\" and remove it from the queue?");
                reveal_strlit(" and remove it from the queue?");
                assert(m@ =~= "Blocklist "@ + quoted(title@) + " and remove it from the queue?"@);
            }
            Some(
                ConfirmDialog {
                    msg: string_of(&m),
                    toggle_label: Some("also remove from download client"),
                    toggle: true,
                    action: ConfirmAction::RemoveQueueItem {
                        radarr: *service == Service::Radarr,
                        id: *id,
                        blocklist: true,
                    },
                },
            )
        },
        _ => None,
    }
}

/// The library's `d` key: remove a movie from Radarr or a series from
/// Sonarr, keeping the files unless toggled on.
pub fn library_delete_confirm(movie: bool, id: i64, title: &str) -> (r: ConfirmDialog)
    ensures
        r.msg@ == "Remove "@ + quoted(title@) + (if movie {
            " from Radarr?"@
        } else {
            " from Sonarr?"@
        }),
        r.toggle_label matches Some(l) && l@ == "also delete files"@,
        !r.toggle,
        movie ==> (r.action matches ConfirmAction::DeleteMovie { id: i, title: t } && i == id
            && t@ == title@),
        !movie ==> (r.action matches ConfirmAction::DeleteSeries { id: i, title: t } && i == id
            && t@ == title@),
{
    let mut m = chars_of("Remove \"");
    push_str(&mut m, title);
    if movie {
        push_str(&mut m, "\" from Radarr?");
    } else {
        push_str(&mut m, "\" from Sonarr?");
    }
    proof {
        reveal_strlit("Remove \"");
        reveal_strlit("Remove ");
        reveal_strlit("\"");
        reveal_strlit("\" from Radarr?");
        reveal_strlit(" from Radarr?");
        reveal_strlit("\" from Sonarr?");
        reveal_strlit(" from Sonarr?");
        assert(m@ =~= "Remove "@ + quoted(title@) + (if movie {
            " from Radarr?"@
        } else {
            " from Sonarr?"@
        }));
    }
    let name = string_of(&chars_of(title));
    let action = if movie {
        ConfirmAction::DeleteMovie { id, title: name }
    } else {
        ConfirmAction::DeleteSeries { id, title: name }
    };
    ConfirmDialog { msg: string_of(&m), toggle_label: Some("also delete files"), toggle: false, action }
}

} // verus!
