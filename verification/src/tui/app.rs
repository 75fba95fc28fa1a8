//! Screen state of the terminal UI: tabs, per-screen state, modals and the
//! list-cursor rule shared by every screen.
use vstd::prelude::*;

use crate::api::models::arr::{QualityProfile, RootFolder, SystemStatus};
use crate::api::models::plex::SessionList;
use crate::commands::calendar::CalendarEntry;
use crate::tui::event::Loadable;
use crate::tui::screens::downloads::{next_seq, DownloadsState};
use crate::tui::screens::search::DEBOUNCE_TICKS;

verus! {

#[derive(Debug, Clone, Copy, PartialEq, Eq, Structural)]
pub enum Tab {
    Dashboard,
    Search,
    Library,
    Calendar,
    Downloads,
    Missing,
}

/// Number of tabs in the tab bar.
pub const TAB_COUNT: usize = 6;

/// Position of a tab in the tab bar (Search comes first: the app opens on it).
pub open spec fn tab_index(t: Tab) -> nat {
    match t {
        Tab::Search => 0,
        Tab::Dashboard => 1,
        Tab::Library => 2,
        Tab::Calendar => 3,
        Tab::Downloads => 4,
        Tab::Missing => 5,
    }
}

/// The tab at a tab-bar position (`i < TAB_COUNT`).
pub open spec fn tab_at(i: nat) -> Tab {
    if i == 0 {
        Tab::Search
    } else if i == 1 {
        Tab::Dashboard
    } else if i == 2 {
        Tab::Library
    } else if i == 3 {
        Tab::Calendar
    } else if i == 4 {
        Tab::Downloads
    } else {
        Tab::Missing
    }
}

pub open spec fn tab_title(t: Tab) -> Seq<char> {
    match t {
        Tab::Dashboard => "Dashboard"@,
        Tab::Search => "Search"@,
        Tab::Library => "Library"@,
        Tab::Calendar => "Calendar"@,
        Tab::Downloads => "Downloads"@,
        Tab::Missing => "Missing"@,
    }
}

impl Tab {
    /// Every tab, in tab-bar order.
    pub fn all() -> (r: [Tab; 6])
        ensures
            forall|i: int| 0 <= i < 6 ==> #[trigger] r@[i] == tab_at(i as nat),
    {
        [Tab::Search, Tab::Dashboard, Tab::Library, Tab::Calendar, Tab::Downloads, Tab::Missing]
    }

    pub fn title(self) -> (r: &'static str)
        ensures
            r@ == tab_title(self),
    {
        match self {
            Tab::Dashboard => "Dashboard",
            Tab::Search => "Search",
            Tab::Library => "Library",
            Tab::Calendar => "Calendar",
            Tab::Downloads => "Downloads",
            Tab::Missing => "Missing",
        }
    }

    /// Position in the tab bar.
    pub fn index(self) -> (r: usize)
        ensures
            r == tab_index(self),
            r < TAB_COUNT,
    {
        match self {
            Tab::Search => 0,
            Tab::Dashboard => 1,
            Tab::Library => 2,
            Tab::Calendar => 3,
            Tab::Downloads => 4,
            Tab::Missing => 5,
        }
    }

    /// The tab to the right, wrapping from the last to the first (Tab key).
    pub fn next(self) -> (r: Tab)
        ensures
            r == tab_at(((tab_index(self) + 1) % 6) as nat),
    {
        let all = Tab::all();
        all[(self.index() + 1) % TAB_COUNT]
    }

    /// The tab to the left, wrapping from the first to the last (Shift-Tab).
    pub fn prev(self) -> (r: Tab)
        ensures
            r == tab_at(((tab_index(self) + 5) % 6) as nat),
    {
        let all = Tab::all();
        all[(self.index() + TAB_COUNT - 1) % TAB_COUNT]
    }

    /// Number keys `1`..`6` jump straight to a tab.
    pub fn from_digit(c: char) -> (r: Option<Tab>)
        ensures
            ('1' <= c <= '6') ==> r == Some(tab_at((c as nat - '1' as nat) as nat)),
            !('1' <= c <= '6') ==> r is None,
    {
        if '1' <= c && c <= '6' {
            let all = Tab::all();
            let i = (c as u32 - '1' as u32) as usize;
            Some(all[i])
        } else {
            None
        }
    }
}

/// `tab_at` undoes `tab_index`.
pub proof fn lemma_tab_at_index(t: Tab)
    ensures
        tab_at(tab_index(t)) == t,
        tab_index(t) < 6,
{
}

/// Moving right then left (or left then right) returns to the same tab.
pub proof fn lemma_tab_next_prev(t: Tab)
    ensures
        tab_at(((tab_index(tab_at(((tab_index(t) + 1) % 6) as nat)) + 5) % 6) as nat) == t,
        tab_at(((tab_index(tab_at(((tab_index(t) + 5) % 6) as nat)) + 1) % 6) as nat) == t,
{
}

/// Movie/series toggle used by the Search and Library screens.
#[derive(Debug, Clone, Copy, PartialEq, Eq, Structural)]
pub enum MediaKind {
    Movies,
    Series,
}

#[derive(Debug)]
pub struct DashboardState {
    pub radarr: Loadable<SystemStatus>,
    pub sonarr: Loadable<SystemStatus>,
    pub plex: Loadable<String>,
    pub qbit: Loadable<String>,
    pub nzbget: Loadable<String>,
    pub sessions: Loadable<SessionList>,
}

impl Default for DashboardState {
    fn default() -> (r: Self)
        ensures
            r.radarr is NotAsked,
            r.sonarr is NotAsked,
            r.plex is NotAsked,
            r.qbit is NotAsked,
            r.nzbget is NotAsked,
            r.sessions is NotAsked,
    {
        DashboardState {
            radarr: Loadable::NotAsked,
            sonarr: Loadable::NotAsked,
            plex: Loadable::NotAsked,
            qbit: Loadable::NotAsked,
            nzbget: Loadable::NotAsked,
            sessions: Loadable::NotAsked,
        }
    }
}

#[derive(Debug)]
pub struct LibraryState {
    pub kind: MediaKind,
    pub filter: String,
    pub editing_filter: bool,
    pub selected: usize,
}

impl Default for LibraryState {
    fn default() -> (r: Self)
        ensures
            r.kind == MediaKind::Movies,
            r.filter@ == Seq::<char>::empty(),
            !r.editing_filter,
            r.selected == 0,
    {
        LibraryState {
            kind: MediaKind::Movies,
            filter: String::new(),
            editing_filter: false,
            selected: 0,
        }
    }
}

#[derive(Debug)]
pub struct CalendarState {
    pub entries: Loadable<Vec<CalendarEntry>>,
}

impl Default for CalendarState {
    fn default() -> (r: Self)
        ensures
            r.entries is NotAsked,
    {
        CalendarState { entries: Loadable::NotAsked }
    }
}

/// What a confirmation dialog does once accepted.
#[derive(Debug, Clone)]
pub enum ConfirmAction {
    DeleteMovie { id: i64, title: String },
    DeleteSeries { id: i64, title: String },
    RemoveQueueItem { radarr: bool, id: i64, blocklist: bool },
    DeleteTorrent { hash: String, name: String },
    DeleteNzb { id: i64, name: String },
}

/// Focusable rows of the add dialog, in display order.
#[derive(Debug, Clone, Copy, PartialEq, Eq, Structural)]
pub enum AddField {
    Profile,
    Root,
    Monitored,
    SearchOnAdd,
    Confirm,
}

/// Focusable rows of the edit dialog, in display order.
#[derive(Debug, Clone, Copy, PartialEq, Eq, Structural)]
pub enum EditField {
    Profile,
    Monitored,
    Confirm,
}

/// Edit an existing library item (quality profile, monitored).
#[derive(Debug)]
pub struct EditModal {
    /// Radarr movie id when editing a movie, Sonarr series id otherwise.
    pub id: i64,
    pub is_movie: bool,
    pub title: String,
    pub options: Loadable<(Vec<QualityProfile>, Vec<RootFolder>)>,
    /// Profile id the item currently has; selects the initial profile_idx
    /// once the profile list arrives.
    pub current_profile_id: Option<i64>,
    pub profile_idx: usize,
    pub monitored: bool,
    pub field: EditField,
}

/// Index of the first profile with the given id, if any has it.
pub open spec fn first_profile_with(profiles: Seq<QualityProfile>, id: i64) -> Option<nat>
    decreases profiles.len(),
{
    if profiles.len() == 0 {
        None
    } else if profiles[0].id == id {
        Some(0)
    } else {
        match first_profile_with(profiles.drop_first(), id) {
            Some(k) => Some(k + 1),
            None => None,
        }
    }
}

/// Where the profile cursor goes: the item's profile, or the first entry.
pub open spec fn profile_position(profiles: Seq<QualityProfile>, id: i64) -> nat {
    match first_profile_with(profiles, id) {
        Some(k) => k,
        None => 0,
    }
}

impl EditModal {
    /// Point profile_idx at the item's current profile (once options load);
    /// nothing else changes.
    pub fn sync_profile_idx(&mut self)
        ensures
            final(self).id == old(self).id,
            final(self).is_movie == old(self).is_movie,
            final(self).title == old(self).title,
            final(self).options == old(self).options,
            final(self).current_profile_id == old(self).current_profile_id,
            final(self).monitored == old(self).monitored,
            final(self).field == old(self).field,
            (old(self).options is Ready && old(self).current_profile_id is Some)
                ==> final(self).profile_idx == profile_position(
                old(self).options->Ready_0.0@,
                old(self).current_profile_id->0,
            ),
            !(old(self).options is Ready && old(self).current_profile_id is Some)
                ==> final(self).profile_idx == old(self).profile_idx,
    {
        let idx: Option<usize> = match (&self.options, self.current_profile_id) {
            (Loadable::Ready(opts), Some(id)) => Some(position_of_profile(&opts.0, id)),
            _ => None,
        };
        if let Some(i) = idx {
            self.profile_idx = i;
        }
    }
}

proof fn lemma_first_profile_with(profiles: Seq<QualityProfile>, id: i64, k: int)
    requires
        0 <= k <= profiles.len(),
        forall|j: int| 0 <= j < k ==> profiles[j].id != id,
    ensures
        k < profiles.len() && profiles[k].id == id ==> first_profile_with(profiles, id) == Some(
            k as nat,
        ),
        k == profiles.len() ==> first_profile_with(profiles, id) is None,
    decreases k,
{
    if k > 0 {
        lemma_first_profile_with(profiles.drop_first(), id, k - 1);
    }
}

fn position_of_profile(profiles: &Vec<QualityProfile>, id: i64) -> (r: usize)
    ensures
        r == profile_position(profiles@, id),
{
    let mut k: usize = 0;
    while k < profiles.len()
        invariant
            0 <= k <= profiles@.len(),
            forall|j: int| 0 <= j < k ==> profiles@[j].id != id,
        decreases profiles@.len() - k,
    {
        if profiles[k].id == id {
            proof {
                lemma_first_profile_with(profiles@, id, k as int);
            }
            return k;
        }
        k = k + 1;
    }
    proof {
        lemma_first_profile_with(profiles@, id, k as int);
    }
    0
}

/// The list-cursor rule shared by every screen: move by `delta`, clamped
/// into `0..len` (0 on an empty list).
pub open spec fn moved_selection(selected: int, delta: int, len: int) -> int {
    if len == 0 {
        0
    } else if selected + delta < 0 {
        0
    } else if selected + delta > len - 1 {
        len - 1
    } else {
        selected + delta
    }
}

pub fn move_selection(selected: &mut usize, delta: i64, len: usize)
    requires
        *old(selected) <= i64::MAX,
        len <= i64::MAX,
        i64::MIN <= *old(selected) + delta <= i64::MAX,
    ensures
        *final(selected) == moved_selection(*old(selected) as int, delta as int, len as int),
        len > 0 ==> *final(selected) < len,
{
    if len == 0 {
        *selected = 0;
        return;
    }
    let cur = *selected as i64;
    let target = cur + delta;
    let last = len as i64 - 1;
    *selected = if target < 0 {
        0
    } else if target > last {
        last as usize
    } else {
        target as usize
    };
}

} // verus!

verus! {

/// How long a toast stays up (about four seconds at a quarter second per
/// tick).
pub const TOAST_TICKS: u8 = 16;

/// The downloads screen refreshes itself every this many ticks (5 s).
pub const DOWNLOADS_REFRESH_TICKS: u8 = 20;

/// The timer-driven part of the app state.
#[derive(Debug, Clone, Copy, PartialEq, Eq, Structural)]
pub struct TickState {
    pub tick: u64,
    /// Tick at which the debounced live search should fire.
    pub fire_at: Option<u64>,
    /// Ticks left before the toast disappears, while one is shown.
    pub toast_ttl: Option<u8>,
    pub ticks_since_refresh: u8,
}

/// Work a tick asks for.
#[derive(Debug, Clone, Copy, PartialEq, Eq, Structural)]
pub struct TickEffects {
    pub run_search: bool,
    /// A silent refresh of the downloads (old rows stay until new ones come).
    pub refresh_downloads: bool,
}

pub open spec fn next_tick(tick: u64) -> u64 {
    if tick == u64::MAX {
        0
    } else {
        (tick + 1) as u64
    }
}

/// What a finished action re-fetches: the lists of the screen it came from.
#[derive(Debug, Clone, Copy, PartialEq, Eq, Structural)]
pub struct ActionRefresh {
    pub downloads: bool,
    pub library: bool,
    pub missing: bool,
}

/// After a successful action from the downloads, library or missing
/// screen, that screen's data is fetched again; other screens fetch
/// nothing.
pub fn action_refresh(origin: Tab) -> (r: ActionRefresh)
    ensures
        r == (ActionRefresh {
            downloads: origin == Tab::Downloads,
            library: origin == Tab::Library,
            missing: origin == Tab::Missing,
        }),
{
    ActionRefresh {
        downloads: origin == Tab::Downloads,
        library: origin == Tab::Library,
        missing: origin == Tab::Missing,
    }
}

/// Whether the tick after `tick` fires the scheduled live search.
pub open spec fn search_due(tick: u64, fire_at: Option<u64>) -> bool {
    fire_at matches Some(at) && next_tick(tick) >= at
}

/// A live search scheduled at tick `t` (due at `t + DEBOUNCE_TICKS`) fires
/// on the `DEBOUNCE_TICKS`-th tick after it, and on no earlier one.
pub proof fn lemma_search_fires_after_debounce(t: u64, k: nat)
    requires
        t <= u64::MAX - DEBOUNCE_TICKS,
        1 <= k <= DEBOUNCE_TICKS,
    ensures
        search_due((t + k - 1) as u64, Some((t + DEBOUNCE_TICKS) as u64)) <==> k == DEBOUNCE_TICKS,
{
}

/// The toast countdown after one tick: it disappears when it reaches zero.
pub open spec fn toast_step(ttl: Option<u8>) -> Option<u8> {
    match ttl {
        None => None,
        Some(t) => if t <= 1 {
            None
        } else {
            Some((t - 1) as u8)
        },
    }
}

/// The toast countdown after `k` ticks.
pub open spec fn toast_after(ttl: Option<u8>, k: nat) -> Option<u8>
    decreases k,
{
    if k == 0 {
        ttl
    } else {
        toast_step(toast_after(ttl, (k - 1) as nat))
    }
}

/// A toast put up with `t` ticks to live is still shown for the next
/// `t - 1` ticks (counting down) and gone from the `t`-th tick on.
pub proof fn lemma_toast_lifetime(t: u8, k: nat)
    requires
        t > 0,
    ensures
        toast_after(Some(t), k) is Some <==> k < t,
        k < t ==> toast_after(Some(t), k) == Some((t - k) as u8),
    decreases k,
{
    if k > 0 {
        lemma_toast_lifetime(t, (k - 1) as nat);
    }
}

/// One tick of the downloads screen's refresh counter: the counter after
/// the tick, and whether the tick refreshes.
pub open spec fn refresh_step(c: nat) -> (nat, bool) {
    if c + 1 >= DOWNLOADS_REFRESH_TICKS {
        (0, true)
    } else {
        (c + 1, false)
    }
}

/// The refresh counter after `k` ticks on a freshly refreshed screen.
pub open spec fn counter_after(k: nat) -> nat
    decreases k,
{
    if k == 0 {
        0
    } else {
        refresh_step(counter_after((k - 1) as nat)).0
    }
}

/// While the downloads screen shows, it refreshes itself on every
/// `DOWNLOADS_REFRESH_TICKS`-th tick and on no other: the tick after `k`
/// ticks refreshes exactly when `k + 1` is a multiple of the period.
pub proof fn lemma_downloads_refresh_period(k: nat)
    ensures
        counter_after(k) == k % (DOWNLOADS_REFRESH_TICKS as nat),
        refresh_step(counter_after(k)).1 <==> (k + 1) % (DOWNLOADS_REFRESH_TICKS as nat) == 0,
    decreases k,
{
    if k > 0 {
        lemma_downloads_refresh_period((k - 1) as nat);
    }
}

/// One timer tick: the clock advances (wrapping), a due live search fires
/// once, the toast counts down and disappears at zero, and while the
/// downloads screen is showing (no dialog open) it refreshes every
/// `DOWNLOADS_REFRESH_TICKS` ticks.
pub fn on_tick(state: &mut TickState, downloads_active: bool) -> (fx: TickEffects)
    requires
        downloads_active ==> old(state).ticks_since_refresh < u8::MAX,
    ensures
        final(state).tick == next_tick(old(state).tick),
        fx.run_search <==> search_due(old(state).tick, old(state).fire_at),
        fx.run_search ==> final(state).fire_at is None,
        !fx.run_search ==> final(state).fire_at == old(state).fire_at,
        final(state).toast_ttl == toast_step(old(state).toast_ttl),
        !downloads_active ==> final(state).ticks_since_refresh == old(state).ticks_since_refresh
            && !fx.refresh_downloads,
        downloads_active ==> (final(state).ticks_since_refresh as nat, fx.refresh_downloads)
            == refresh_step(old(state).ticks_since_refresh as nat),
        downloads_active ==> final(state).ticks_since_refresh < DOWNLOADS_REFRESH_TICKS,
{
    state.tick = if state.tick == u64::MAX {
        0
    } else {
        state.tick + 1
    };
    let mut run_search = false;
    if let Some(at) = state.fire_at {
        if state.tick >= at {
            state.fire_at = None;
            run_search = true;
        }
    }
    if let Some(ttl) = state.toast_ttl {
        let left = if ttl == 0 {
            0
        } else {
            ttl - 1
        };
        state.toast_ttl = if left == 0 {
            None
        } else {
            Some(left)
        };
    }
    let mut refresh_downloads = false;
    if downloads_active {
        state.ticks_since_refresh = state.ticks_since_refresh + 1;
        if state.ticks_since_refresh >= DOWNLOADS_REFRESH_TICKS {
            state.ticks_since_refresh = 0;
            refresh_downloads = true;
        }
    }
    TickEffects { run_search, refresh_downloads }
}

/// One timer tick with the downloads screen attached: everything `on_tick`
/// does, and when the tick refreshes the downloads, a silent refresh that
/// takes a new request number and sets no list back to loading (the old
/// rows stay until the new ones arrive). A tick that does not refresh
/// leaves the downloads untouched.
pub fn tick_with_downloads<Q, T, N>(
    state: &mut TickState,
    downloads: &mut DownloadsState<Q, T, N>,
    downloads_active: bool,
) -> (fx: TickEffects)
    requires
        downloads_active ==> old(state).ticks_since_refresh < u8::MAX,
    ensures
        final(state).tick == next_tick(old(state).tick),
        fx.run_search <==> search_due(old(state).tick, old(state).fire_at),
        fx.run_search ==> final(state).fire_at is None,
        !fx.run_search ==> final(state).fire_at == old(state).fire_at,
        final(state).toast_ttl == toast_step(old(state).toast_ttl),
        !downloads_active ==> final(state).ticks_since_refresh == old(state).ticks_since_refresh
            && !fx.refresh_downloads,
        downloads_active ==> (final(state).ticks_since_refresh as nat, fx.refresh_downloads)
            == refresh_step(old(state).ticks_since_refresh as nat),
        final(downloads).seq == (if fx.refresh_downloads {
            next_seq(old(downloads).seq)
        } else {
            old(downloads).seq
        }),
        final(downloads).radarr_queue == old(downloads).radarr_queue,
        final(downloads).sonarr_queue == old(downloads).sonarr_queue,
        final(downloads).torrents == old(downloads).torrents,
        final(downloads).nzb == old(downloads).nzb,
        final(downloads).selected == old(downloads).selected,
{
    let fx = on_tick(state, downloads_active);
    if fx.refresh_downloads {
        downloads.begin_refresh();
    }
    fx
}

} // verus!

verus! {

/// Which services have a client.
#[derive(Debug, Clone, Copy, PartialEq, Eq, Structural)]
pub struct Configured {
    pub radarr: bool,
    pub sonarr: bool,
    pub plex: bool,
    pub qbit: bool,
    pub nzbget: bool,
}

/// What refreshing a tab does: the data slots that show a spinner until
/// their fetch answers, and the fetches started.
#[derive(Debug, Clone, Copy, PartialEq, Eq, Structural)]
pub struct RefreshPlan {
    pub dash_radarr: bool,
    pub dash_sonarr: bool,
    /// Plex health and its sessions.
    pub dash_plex: bool,
    pub dash_qbit: bool,
    pub dash_nzbget: bool,
    pub movies: bool,
    pub series: bool,
    pub calendar: bool,
    pub radarr_queue: bool,
    pub sonarr_queue: bool,
    pub torrents: bool,
    pub nzb: bool,
    pub missing_radarr: bool,
    pub missing_sonarr: bool,
    pub fetch_dashboard: bool,
    pub fetch_calendar: bool,
    pub fetch_downloads: bool,
    pub fetch_missing: bool,
    /// Restart the downloads auto-refresh countdown.
    pub reset_download_ticks: bool,
}

/// Days of calendar the TUI shows.
pub const CALENDAR_DAYS: i64 = 14;

pub open spec fn nothing_planned() -> RefreshPlan {
    RefreshPlan {
        dash_radarr: false,
        dash_sonarr: false,
        dash_plex: false,
        dash_qbit: false,
        dash_nzbget: false,
        movies: false,
        series: false,
        calendar: false,
        radarr_queue: false,
        sonarr_queue: false,
        torrents: false,
        nzb: false,
        missing_radarr: false,
        missing_sonarr: false,
        fetch_dashboard: false,
        fetch_calendar: false,
        fetch_downloads: false,
        fetch_missing: false,
        reset_download_ticks: false,
    }
}

/// Refreshing marks only configured services as loading; the dashboard,
/// downloads and missing fetches ask every configured service, the library
/// asks Radarr and Sonarr for their lists (each only if configured), the
/// calendar always refetches, and the search tab has nothing to refresh.
pub open spec fn refresh_plan_spec(tab: Tab, c: Configured) -> RefreshPlan {
    let n = nothing_planned();
    match tab {
        Tab::Dashboard => RefreshPlan {
            dash_radarr: c.radarr,
            dash_sonarr: c.sonarr,
            dash_plex: c.plex,
            dash_qbit: c.qbit,
            dash_nzbget: c.nzbget,
            fetch_dashboard: true,
            ..n
        },
        Tab::Library => RefreshPlan { movies: c.radarr, series: c.sonarr, ..n },
        Tab::Calendar => RefreshPlan { calendar: true, fetch_calendar: true, ..n },
        Tab::Downloads => RefreshPlan {
            radarr_queue: c.radarr,
            sonarr_queue: c.sonarr,
            torrents: c.qbit,
            nzb: c.nzbget,
            fetch_downloads: true,
            reset_download_ticks: true,
            ..n
        },
        Tab::Missing => RefreshPlan {
            missing_radarr: c.radarr,
            missing_sonarr: c.sonarr,
            fetch_missing: true,
            ..n
        },
        Tab::Search => n,
    }
}

pub fn refresh_plan(tab: Tab, c: Configured) -> (r: RefreshPlan)
    ensures
        r == refresh_plan_spec(tab, c),
{
    let n = RefreshPlan {
        dash_radarr: false,
        dash_sonarr: false,
        dash_plex: false,
        dash_qbit: false,
        dash_nzbget: false,
        movies: false,
        series: false,
        calendar: false,
        radarr_queue: false,
        sonarr_queue: false,
        torrents: false,
        nzb: false,
        missing_radarr: false,
        missing_sonarr: false,
        fetch_dashboard: false,
        fetch_calendar: false,
        fetch_downloads: false,
        fetch_missing: false,
        reset_download_ticks: false,
    };
    match tab {
        Tab::Dashboard => RefreshPlan {
            dash_radarr: c.radarr,
            dash_sonarr: c.sonarr,
            dash_plex: c.plex,
            dash_qbit: c.qbit,
            dash_nzbget: c.nzbget,
            fetch_dashboard: true,
            ..n
        },
        Tab::Library => RefreshPlan { movies: c.radarr, series: c.sonarr, ..n },
        Tab::Calendar => RefreshPlan { calendar: true, fetch_calendar: true, ..n },
        Tab::Downloads => RefreshPlan {
            radarr_queue: c.radarr,
            sonarr_queue: c.sonarr,
            torrents: c.qbit,
            nzb: c.nzbget,
            fetch_downloads: true,
            reset_download_ticks: true,
            ..n
        },
        Tab::Missing => RefreshPlan {
            missing_radarr: c.radarr,
            missing_sonarr: c.sonarr,
            fetch_missing: true,
            ..n
        },
        Tab::Search => n,
    }
}

/// Refreshing a tab starts that tab's own fetch and puts every configured
/// service it shows on a spinner, and every slot a plan puts on a spinner
/// is covered by a fetch the same plan starts: the dashboard cards by the
/// dashboard fetch, the calendar by the calendar fetch, the queues by the
/// downloads fetch, the missing lists by the missing fetch (the library
/// lists are fetched by their own flags).
pub proof fn lemma_refresh_fetches_what_it_marks(tab: Tab, c: Configured)
    ensures
        ({
            let p = refresh_plan_spec(tab, c);
            &&& tab == Tab::Dashboard ==> p.fetch_dashboard && p.dash_radarr == c.radarr
                && p.dash_sonarr == c.sonarr && p.dash_plex == c.plex && p.dash_qbit == c.qbit
                && p.dash_nzbget == c.nzbget
            &&& tab == Tab::Library ==> p.movies == c.radarr && p.series == c.sonarr
            &&& tab == Tab::Calendar ==> p.fetch_calendar && p.calendar
            &&& tab == Tab::Downloads ==> p.fetch_downloads && p.radarr_queue == c.radarr
                && p.sonarr_queue == c.sonarr && p.torrents == c.qbit && p.nzb == c.nzbget
            &&& tab == Tab::Missing ==> p.fetch_missing && p.missing_radarr == c.radarr
                && p.missing_sonarr == c.sonarr
            &&& (p.dash_radarr || p.dash_sonarr || p.dash_plex || p.dash_qbit || p.dash_nzbget)
                ==> p.fetch_dashboard
            &&& p.calendar ==> p.fetch_calendar
            &&& (p.radarr_queue || p.sonarr_queue || p.torrents || p.nzb) ==> p.fetch_downloads
            &&& (p.missing_radarr || p.missing_sonarr) ==> p.fetch_missing
        }),
{
}

/// A refresh never shows a spinner for a service that is not configured.
pub proof fn lemma_refresh_only_configured(tab: Tab, c: Configured)
    ensures
        ({
            let p = refresh_plan_spec(tab, c);
            &&& (p.dash_radarr || p.movies || p.radarr_queue || p.missing_radarr) ==> c.radarr
            &&& (p.dash_sonarr || p.series || p.sonarr_queue || p.missing_sonarr) ==> c.sonarr
            &&& p.dash_plex ==> c.plex
            &&& (p.dash_qbit || p.torrents) ==> c.qbit
            &&& (p.dash_nzbget || p.nzb) ==> c.nzbget
        }),
{
}

/// Which of the active tab's data has never been requested (the two slots
/// the tab checks before fetching on first visit).
#[derive(Debug, Clone, Copy, PartialEq, Eq, Structural)]
pub struct FirstVisit {
    pub dashboard: bool,
    pub calendar: bool,
    pub downloads: bool,
    pub missing: bool,
}

/// What showing a tab does: refresh it on first visit (dashboard,
/// calendar, downloads, missing), and for the dashboard and library make
/// sure the library lists are loading.
#[derive(Debug, Clone, Copy, PartialEq, Eq, Structural)]
pub struct LoadPlan {
    pub refresh: bool,
    pub ensure_library: bool,
}

pub fn load_plan(tab: Tab, first: FirstVisit) -> (r: LoadPlan)
    ensures
        r.refresh == match tab {
            Tab::Dashboard => first.dashboard,
            Tab::Calendar => first.calendar,
            Tab::Downloads => first.downloads,
            Tab::Missing => first.missing,
            _ => false,
        },
        r.ensure_library == (tab == Tab::Dashboard || tab == Tab::Library),
{
    match tab {
        Tab::Dashboard => LoadPlan { refresh: first.dashboard, ensure_library: true },
        Tab::Library => LoadPlan { refresh: false, ensure_library: true },
        Tab::Calendar => LoadPlan { refresh: first.calendar, ensure_library: false },
        Tab::Downloads => LoadPlan { refresh: first.downloads, ensure_library: false },
        Tab::Missing => LoadPlan { refresh: first.missing, ensure_library: false },
        Tab::Search => LoadPlan { refresh: false, ensure_library: false },
    }
}

} // verus!
