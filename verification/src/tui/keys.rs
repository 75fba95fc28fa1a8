//! What each key does: the decisions of the event loop, taken on a plain
//! description of the key so that they can be stated and checked.
use vstd::prelude::*;

use crate::text::{chars_of, string_of};
use crate::tui::app::{move_selection, moved_selection, tab_at, tab_index, LibraryState, MediaKind, Tab};

verus! {

/// A key press, as the screens distinguish them.
#[derive(Debug, Clone, Copy, PartialEq, Eq, Structural)]
pub enum Key {
    Char(char),
    Enter,
    Esc,
    Tab,
    BackTab,
    Up,
    Down,
    Left,
    Right,
    Backspace,
    Other,
}

/// Where a key press goes first.
#[derive(Debug, Clone, Copy, PartialEq, Eq, Structural)]
pub enum Dispatch {
    Quit,
    /// An open dialog takes every key.
    Modal,
    /// The search box is being typed into.
    SearchInput,
    /// The library filter is being typed into.
    FilterInput,
    Help,
    Refresh,
    SwitchTab(Tab),
    /// Left to the active screen.
    Screen,
}

pub open spec fn dispatch_spec(
    tab: Tab,
    key: Key,
    ctrl: bool,
    modal_open: bool,
    search_editing: bool,
    filter_editing: bool,
) -> Dispatch {
    if key == Key::Char('c') && ctrl {
        Dispatch::Quit
    } else if modal_open {
        Dispatch::Modal
    } else if tab == Tab::Search && search_editing {
        Dispatch::SearchInput
    } else if tab == Tab::Library && filter_editing {
        Dispatch::FilterInput
    } else {
        match key {
            Key::Char(c) => if c == 'q' {
                Dispatch::Quit
            } else if c == '?' {
                Dispatch::Help
            } else if c == 'r' {
                Dispatch::Refresh
            } else if '1' <= c <= '6' {
                Dispatch::SwitchTab(tab_at((c as nat - '1' as nat) as nat))
            } else {
                Dispatch::Screen
            },
            Key::Tab => Dispatch::SwitchTab(tab_at(((tab_index(tab) + 1) % 6) as nat)),
            Key::BackTab => Dispatch::SwitchTab(tab_at(((tab_index(tab) + 5) % 6) as nat)),
            _ => Dispatch::Screen,
        }
    }
}

/// Ctrl-C always quits; an open dialog or a text box captures keys; then
/// the global keys (quit, help, refresh, tab switching) apply; the rest go
/// to the active screen.
pub fn dispatch_key(
    tab: Tab,
    key: Key,
    ctrl: bool,
    modal_open: bool,
    search_editing: bool,
    filter_editing: bool,
) -> (r: Dispatch)
    ensures
        r == dispatch_spec(tab, key, ctrl, modal_open, search_editing, filter_editing),
{
    if key == Key::Char('c') && ctrl {
        return Dispatch::Quit;
    }
    if modal_open {
        return Dispatch::Modal;
    }
    if tab == Tab::Search && search_editing {
        return Dispatch::SearchInput;
    }
    if tab == Tab::Library && filter_editing {
        return Dispatch::FilterInput;
    }
    match key {
        Key::Char(c) => {
            if c == 'q' {
                Dispatch::Quit
            } else if c == '?' {
                Dispatch::Help
            } else if c == 'r' {
                Dispatch::Refresh
            } else {
                match Tab::from_digit(c) {
                    Some(t) => Dispatch::SwitchTab(t),
                    None => Dispatch::Screen,
                }
            }
        },
        Key::Tab => Dispatch::SwitchTab(tab.next()),
        Key::BackTab => Dispatch::SwitchTab(tab.prev()),
        _ => Dispatch::Screen,
    }
}

/// Cursor movement asked for by `j`/`k` or the arrow keys.
pub open spec fn vertical_delta(key: Key) -> int {
    match key {
        Key::Char(c) => if c == 'j' {
            1
        } else if c == 'k' {
            -1
        } else {
            0
        },
        Key::Down => 1,
        Key::Up => -1,
        _ => 0,
    }
}

/// Keys that show the movie list on the library screen.
pub open spec fn shows_movies(key: Key) -> bool {
    key == Key::Char('m') || key == Key::Char('h') || key == Key::Left
}

/// Keys that show the series list on the library screen.
pub open spec fn shows_series(key: Key) -> bool {
    key == Key::Char('s') || key == Key::Char('l') || key == Key::Right
}

/// What the library screen asks the app to do after a key.
#[derive(Debug, Clone, Copy, PartialEq, Eq, Structural)]
pub enum LibraryCommand {
    Nothing,
    SearchRelease,
    Edit,
    Delete,
}

/// Library keys: `m`/`s` (or `h`/`l`, `←`/`→`) switch movies/series with
/// the cursor back at the top, `/` starts the filter, `j`/`k` move, `g`/`G`
/// jump to the ends, and `S` (search for a release), `e` (edit) and `d`
/// (delete) act on the selected item. `len` is the length of the filtered
/// list.
pub fn library_key(state: &mut LibraryState, key: Key, len: usize) -> (r: LibraryCommand)
    requires
        old(state).selected < i64::MAX,
        len <= i64::MAX,
    ensures
        final(state).filter@ == old(state).filter@,
        shows_movies(key) ==> final(state).kind == MediaKind::Movies && final(state).selected == 0
            && r == LibraryCommand::Nothing,
        shows_series(key) ==> final(state).kind == MediaKind::Series && final(state).selected == 0
            && r == LibraryCommand::Nothing,
        !(shows_movies(key) || shows_series(key)) ==> final(state).kind == old(state).kind,
        key == Key::Char('/') ==> final(state).editing_filter,
        key != Key::Char('/') ==> final(state).editing_filter == old(state).editing_filter,
        vertical_delta(key) != 0 ==> final(state).selected == moved_selection(
            old(state).selected as int,
            vertical_delta(key),
            len as int,
        ) && r == LibraryCommand::Nothing,
        key == Key::Char('g') ==> final(state).selected == 0,
        key == Key::Char('G') ==> final(state).selected == (if len == 0 { 0 } else { len - 1 }),
        key == Key::Char('S') ==> r == LibraryCommand::SearchRelease,
        key == Key::Char('e') ==> r == LibraryCommand::Edit,
        key == Key::Char('d') ==> r == LibraryCommand::Delete,
        r != LibraryCommand::Nothing ==> final(state).selected == old(state).selected,
        !(shows_movies(key) || shows_series(key) || vertical_delta(key) != 0 || key == Key::Char(
            'g',
        ) || key == Key::Char('G')) ==> final(state).selected == old(state).selected,
        !(key == Key::Char('S') || key == Key::Char('e') || key == Key::Char('d')) ==> r
            == LibraryCommand::Nothing,
{
    match key {
        Key::Left | Key::Char('h') | Key::Char('m') => {
            state.kind = MediaKind::Movies;
            state.selected = 0;
            LibraryCommand::Nothing
        },
        Key::Right | Key::Char('l') | Key::Char('s') => {
            state.kind = MediaKind::Series;
            state.selected = 0;
            LibraryCommand::Nothing
        },
        Key::Char('/') => {
            state.editing_filter = true;
            LibraryCommand::Nothing
        },
        Key::Char('j') | Key::Down => {
            move_selection(&mut state.selected, 1, len);
            LibraryCommand::Nothing
        },
        Key::Char('k') | Key::Up => {
            move_selection(&mut state.selected, -1, len);
            LibraryCommand::Nothing
        },
        Key::Char('g') => {
            state.selected = 0;
            LibraryCommand::Nothing
        },
        Key::Char('G') => {
            state.selected = if len == 0 {
                0
            } else {
                len - 1
            };
            LibraryCommand::Nothing
        },
        Key::Char('S') => LibraryCommand::SearchRelease,
        Key::Char('e') => LibraryCommand::Edit,
        Key::Char('d') => LibraryCommand::Delete,
        _ => LibraryCommand::Nothing,
    }
}

/// Typing into the library filter: `Esc` clears it and stops editing,
/// `Enter` keeps it and stops editing, navigation keys stop editing and are
/// handled again as ordinary keys (the result is then `true`), `Backspace`
/// deletes the last character, and a character is appended (cursor to the
/// top).
pub fn filter_input(state: &mut LibraryState, key: Key) -> (redispatch: bool)
    ensures
        final(state).kind == old(state).kind,
        redispatch <==> (key == Key::Tab || key == Key::BackTab || key == Key::Up || key
            == Key::Down),
        key == Key::Esc ==> final(state).filter@ == Seq::<char>::empty() && !final(state).editing_filter,
        (key == Key::Enter || redispatch) ==> final(state).filter@ == old(state).filter@
            && !final(state).editing_filter,
        key == Key::Backspace ==> final(state).filter@ == (if old(state).filter@.len() == 0 {
            old(state).filter@
        } else {
            old(state).filter@.drop_last()
        }) && final(state).editing_filter == old(state).editing_filter,
        key matches Key::Char(c) ==> final(state).filter@ == old(state).filter@.push(c)
            && final(state).selected == 0 && final(state).editing_filter == old(state).editing_filter,
        !(key is Char) ==> final(state).selected == old(state).selected,
        (key == Key::Left || key == Key::Right || key == Key::Other) ==> final(state).filter@
            == old(state).filter@ && final(state).editing_filter == old(state).editing_filter,
{
    match key {
        Key::Esc => {
            state.filter = String::new();
            state.editing_filter = false;
            false
        },
        Key::Enter => {
            state.editing_filter = false;
            false
        },
        Key::Tab | Key::BackTab | Key::Up | Key::Down => {
            state.editing_filter = false;
            true
        },
        Key::Backspace => {
            let mut cs = chars_of(state.filter.as_str());
            if cs.len() > 0 {
                cs.pop();
            }
            state.filter = string_of(&cs);
            false
        },
        Key::Char(c) => {
            let mut cs = chars_of(state.filter.as_str());
            cs.push(c);
            state.filter = string_of(&cs);
            state.selected = 0;
            false
        },
        _ => false,
    }
}

/// What typing into the search box asks the app to do after a key.
#[derive(Debug, Clone, Copy, PartialEq, Eq, Structural)]
pub enum SearchInputCommand {
    Nothing,
    /// Typing stopped; handle the key again as an ordinary key.
    Redispatch,
    /// The query changed: schedule (or reset) the live search.
    Edited,
    /// Run the pending search now.
    RunNow,
    /// Open the add dialog for the selected result.
    Add,
}

/// Typing into the search box: `Esc` stops typing, `Tab`/`BackTab` stop
/// typing and switch screens as usual, the arrows move through the results
/// (`len` of them), `Enter` runs a pending search at once or else adds the
/// selected result, `Backspace` deletes the last character and a character
/// is appended (both reschedule the live search).
pub fn search_input(
    query: &mut String,
    editing: &mut bool,
    selected: &mut usize,
    key: Key,
    len: usize,
    search_pending: bool,
) -> (r: SearchInputCommand)
    requires
        *old(selected) < i64::MAX,
        len <= i64::MAX,
    ensures
        r == (if key == Key::Tab || key == Key::BackTab {
            SearchInputCommand::Redispatch
        } else if key == Key::Enter {
            if search_pending {
                SearchInputCommand::RunNow
            } else {
                SearchInputCommand::Add
            }
        } else if key == Key::Backspace || key is Char {
            SearchInputCommand::Edited
        } else {
            SearchInputCommand::Nothing
        }),
        *final(editing) == (if key == Key::Esc || key == Key::Tab || key == Key::BackTab {
            false
        } else {
            *old(editing)
        }),
        *final(selected) == (if key == Key::Down || key == Key::Up {
            moved_selection(*old(selected) as int, vertical_delta(key) as int, len as int) as usize
        } else {
            *old(selected)
        }),
        final(query)@ == (match key {
            Key::Backspace => if old(query)@.len() == 0 {
                old(query)@
            } else {
                old(query)@.drop_last()
            },
            Key::Char(c) => old(query)@.push(c),
            _ => old(query)@,
        }),
{
    match key {
        Key::Esc => {
            *editing = false;
            SearchInputCommand::Nothing
        },
        Key::Tab | Key::BackTab => {
            *editing = false;
            SearchInputCommand::Redispatch
        },
        Key::Down => {
            move_selection(selected, 1, len);
            SearchInputCommand::Nothing
        },
        Key::Up => {
            move_selection(selected, -1, len);
            SearchInputCommand::Nothing
        },
        Key::Enter => if search_pending {
            SearchInputCommand::RunNow
        } else {
            SearchInputCommand::Add
        },
        Key::Backspace => {
            let mut cs = chars_of(query.as_str());
            if cs.len() > 0 {
                cs.pop();
            }
            *query = string_of(&cs);
            SearchInputCommand::Edited
        },
        Key::Char(c) => {
            let mut cs = chars_of(query.as_str());
            cs.push(c);
            *query = string_of(&cs);
            SearchInputCommand::Edited
        },
        _ => SearchInputCommand::Nothing,
    }
}

/// Search screen keys while not typing: `/` or `i` start typing, `j`/`k`
/// (or the arrows) move through the `len` results, and `a` or `Enter` ask
/// for the add dialog (the result is `true` then).
pub fn search_key(editing: &mut bool, selected: &mut usize, key: Key, len: usize) -> (add: bool)
    requires
        *old(selected) < i64::MAX,
        len <= i64::MAX,
    ensures
        add <==> (key == Key::Char('a') || key == Key::Enter),
        *final(editing) == (key == Key::Char('/') || key == Key::Char('i') || *old(editing)),
        *final(selected) == (if vertical_delta(key) != 0 {
            moved_selection(*old(selected) as int, vertical_delta(key), len as int) as usize
        } else {
            *old(selected)
        }),
{
    match key {
        Key::Char('/') | Key::Char('i') => {
            *editing = true;
            false
        },
        Key::Char('j') | Key::Down => {
            move_selection(selected, 1, len);
            false
        },
        Key::Char('k') | Key::Up => {
            move_selection(selected, -1, len);
            false
        },
        Key::Char('a') | Key::Enter => true,
        _ => false,
    }
}

/// What the downloads screen asks the app to do after a key.
#[derive(Debug, Clone, Copy, PartialEq, Eq, Structural)]
pub enum DownloadsCommand {
    Nothing,
    Pause,
    Resume,
    Delete,
    Blocklist,
}

/// Downloads keys: `j`/`k` move, `p` pauses, `P` resumes, `d` deletes and
/// `b` blocklists the selected row.
pub fn downloads_key(selected: &mut usize, key: Key, len: usize) -> (r: DownloadsCommand)
    requires
        *old(selected) < i64::MAX,
        len <= i64::MAX,
    ensures
        vertical_delta(key) != 0 ==> *final(selected) == moved_selection(
            *old(selected) as int,
            vertical_delta(key),
            len as int,
        ),
        vertical_delta(key) == 0 ==> *final(selected) == *old(selected),
        r == (if key == Key::Char('p') {
            DownloadsCommand::Pause
        } else if key == Key::Char('P') {
            DownloadsCommand::Resume
        } else if key == Key::Char('d') {
            DownloadsCommand::Delete
        } else if key == Key::Char('b') {
            DownloadsCommand::Blocklist
        } else {
            DownloadsCommand::Nothing
        }),
{
    match key {
        Key::Char('j') | Key::Down => {
            move_selection(selected, 1, len);
            DownloadsCommand::Nothing
        },
        Key::Char('k') | Key::Up => {
            move_selection(selected, -1, len);
            DownloadsCommand::Nothing
        },
        Key::Char('p') => DownloadsCommand::Pause,
        Key::Char('P') => DownloadsCommand::Resume,
        Key::Char('d') => DownloadsCommand::Delete,
        Key::Char('b') => DownloadsCommand::Blocklist,
        _ => DownloadsCommand::Nothing,
    }
}

/// What the missing screen asks the app to do after a key.
#[derive(Debug, Clone, Copy, PartialEq, Eq, Structural)]
pub enum MissingCommand {
    Nothing,
    SearchSelected,
    SearchAll,
}

/// Missing keys: `j`/`k` move, `s` searches for the selected item, `a`
/// searches for everything missing.
pub fn missing_key(selected: &mut usize, key: Key, len: usize) -> (r: MissingCommand)
    requires
        *old(selected) < i64::MAX,
        len <= i64::MAX,
    ensures
        vertical_delta(key) != 0 ==> *final(selected) == moved_selection(
            *old(selected) as int,
            vertical_delta(key),
            len as int,
        ),
        vertical_delta(key) == 0 ==> *final(selected) == *old(selected),
        r == (if key == Key::Char('s') || key == Key::Char('S') {
            MissingCommand::SearchSelected
        } else if key == Key::Char('a') || key == Key::Char('A') {
            MissingCommand::SearchAll
        } else {
            MissingCommand::Nothing
        }),
{
    match key {
        Key::Char('j') | Key::Down => {
            move_selection(selected, 1, len);
            MissingCommand::Nothing
        },
        Key::Char('k') | Key::Up => {
            move_selection(selected, -1, len);
            MissingCommand::Nothing
        },
        Key::Char('s') | Key::Char('S') => MissingCommand::SearchSelected,
        Key::Char('a') | Key::Char('A') => MissingCommand::SearchAll,
        _ => MissingCommand::Nothing,
    }
}

/// What a key does to an open confirmation dialog.
#[derive(Debug, Clone, Copy, PartialEq, Eq, Structural)]
pub enum ConfirmKey {
    /// Run the action with this toggle value; the dialog closes.
    Accept(bool),
    /// Close without acting.
    Cancel,
    /// Stay open with this toggle value.
    Stay(bool),
}

/// `Enter`/`y` accept, `Esc`/`n`/`q` cancel, `f` flips the toggle when the
/// dialog has one; any other key leaves the dialog as it is.
pub fn confirm_key(key: Key, has_toggle: bool, toggle: bool) -> (r: ConfirmKey)
    ensures
        r == (if key == Key::Enter || key == Key::Char('y') {
            ConfirmKey::Accept(toggle)
        } else if key == Key::Esc || key == Key::Char('n') || key == Key::Char('q') {
            ConfirmKey::Cancel
        } else if key == Key::Char('f') && has_toggle {
            ConfirmKey::Stay(!toggle)
        } else {
            ConfirmKey::Stay(toggle)
        }),
{
    match key {
        Key::Enter | Key::Char('y') => ConfirmKey::Accept(toggle),
        Key::Esc | Key::Char('n') | Key::Char('q') => ConfirmKey::Cancel,
        Key::Char('f') if has_toggle => ConfirmKey::Stay(!toggle),
        _ => ConfirmKey::Stay(toggle),
    }
}

/// What a key does to an open add dialog.
#[derive(Debug, Clone, Copy, PartialEq, Eq, Structural)]
pub enum AddKey {
    Cancel,
    Submit,
    NextField,
    PrevField,
    /// Cycle the focused row by this step.
    Cycle(i64),
    Stay,
}

pub fn add_key(key: Key) -> (r: AddKey)
    ensures
        r == (if key == Key::Esc {
            AddKey::Cancel
        } else if key == Key::Enter {
            AddKey::Submit
        } else if key == Key::Tab || key == Key::Char('j') || key == Key::Down {
            AddKey::NextField
        } else if key == Key::BackTab || key == Key::Char('k') || key == Key::Up {
            AddKey::PrevField
        } else if key == Key::Char('h') || key == Key::Left {
            AddKey::Cycle(-1i64)
        } else if key == Key::Char('l') || key == Key::Right || key == Key::Char(' ') {
            AddKey::Cycle(1i64)
        } else {
            AddKey::Stay
        }),
{
    match key {
        Key::Esc => AddKey::Cancel,
        Key::Enter => AddKey::Submit,
        Key::Tab | Key::Char('j') | Key::Down => AddKey::NextField,
        Key::BackTab | Key::Char('k') | Key::Up => AddKey::PrevField,
        Key::Char('h') | Key::Left => AddKey::Cycle(-1),
        Key::Char('l') | Key::Right | Key::Char(' ') => AddKey::Cycle(1),
        _ => AddKey::Stay,
    }
}

/// A status-bar hint: the key and what it does.
pub type KeyHint = (&'static str, &'static str);

/// The hints for the keys of one screen.
pub open spec fn screen_hints(tab: Tab, search_editing: bool) -> Seq<KeyHint> {
    match tab {
        Tab::Dashboard | Tab::Calendar => seq![],
        Tab::Search => if search_editing {
            seq![("↑↓", "select"), ("Enter", "add"), ("Esc", "done typing")]
        } else {
            seq![("/", "type"), ("a", "add")]
        },
        Tab::Library => seq![
            ("m/s", "movies/series"),
            ("/", "filter"),
            ("S", "search release"),
            ("e", "edit"),
            ("d", "delete"),
        ],
        Tab::Downloads => seq![("p/P", "pause/resume"), ("d", "delete"), ("b", "blocklist")],
        Tab::Missing => seq![("S", "search selected"), ("A", "search all")],
    }
}

/// The status bar's key hints: a dialog's two keys while one is open;
/// otherwise the tab keys, the screen's own keys, then refresh, help, quit.
pub open spec fn context_hints(tab: Tab, modal_open: bool, search_editing: bool) -> Seq<KeyHint> {
    if modal_open {
        seq![("Esc", "close"), ("Enter", "confirm")]
    } else {
        seq![("1-6", "tabs")] + screen_hints(tab, search_editing) + seq![
            ("r", "refresh"),
            ("?", "help"),
            ("q", "quit"),
        ]
    }
}

fn screen_hints_exec(tab: Tab, search_editing: bool) -> (r: Vec<KeyHint>)
    ensures
        r@ == screen_hints(tab, search_editing),
{
    let r: Vec<KeyHint> = match tab {
        Tab::Dashboard | Tab::Calendar => vec![],
        Tab::Search => if search_editing {
            vec![("↑↓", "select"), ("Enter", "add"), ("Esc", "done typing")]
        } else {
            vec![("/", "type"), ("a", "add")]
        },
        Tab::Library => vec![
            ("m/s", "movies/series"),
            ("/", "filter"),
            ("S", "search release"),
            ("e", "edit"),
            ("d", "delete"),
        ],
        Tab::Downloads => vec![("p/P", "pause/resume"), ("d", "delete"), ("b", "blocklist")],
        Tab::Missing => vec![("S", "search selected"), ("A", "search all")],
    };
    assert(r@ =~= screen_hints(tab, search_editing));
    r
}

pub fn context_keys(tab: Tab, modal_open: bool, search_editing: bool) -> (r: Vec<KeyHint>)
    ensures
        r@ == context_hints(tab, modal_open, search_editing),
{
    if modal_open {
        let r: Vec<KeyHint> = vec![("Esc", "close"), ("Enter", "confirm")];
        assert(r@ =~= context_hints(tab, modal_open, search_editing));
        return r;
    }
    let mut r: Vec<KeyHint> = vec![("1-6", "tabs")];
    let mut screen = screen_hints_exec(tab, search_editing);
    r.append(&mut screen);
    r.push(("r", "refresh"));
    r.push(("?", "help"));
    r.push(("q", "quit"));
    assert(r@ =~= context_hints(tab, modal_open, search_editing));
    r
}

} // verus!
