use cliarr::api::models::arr::{QualityProfile, RootFolder, SystemStatus};
use cliarr::error::CliarrError;
use cliarr::tui::app::{
    move_selection, on_tick, tick_with_downloads, AddField, DashboardState, EditField, EditModal, LibraryState,
    MediaKind, Tab, TickState,
};
use cliarr::tui::event::Loadable;
use cliarr::tui::screens::downloads::DownloadsState;
use cliarr::tui::fetch::err_str;
use cliarr::tui::keys::{
    add_key, confirm_key, context_keys, dispatch_key, search_input, search_key, SearchInputCommand, downloads_key, filter_input, library_key, missing_key,
    AddKey, ConfirmKey, Dispatch, DownloadsCommand, Key, LibraryCommand, MissingCommand,
};
use cliarr::tui::screens::dashboard::{status_line, truncate, StatusKind};
use cliarr::tui::screens::modal::{
    add_cycle, add_field_next, add_field_prev, add_start, add_submit, describe_action, edit_cycle,
    edit_field_next, edit_field_prev, edit_submit, AddSelection, AddSubmit, EditSubmit,
};
use cliarr::tui::screens::search::{
    restore_search_selection, schedule_search, search_hits, search_term, HitRef, SearchKey,
    SearchSchedule,
};
use cliarr::tui::theme::Service;
use cliarr::tui::app::{action_refresh, load_plan, refresh_plan, ConfirmAction, Configured, FirstVisit};

fn profile(id: i64, name: &str) -> QualityProfile {
    QualityProfile { id, name: name.to_string() }
}

fn root(path: &str) -> RootFolder {
    RootFolder { id: 1, path: path.to_string(), free_space: None, accessible: None }
}

#[test]
fn tab_bar_order_titles_and_numbers() {
    let all = Tab::all();
    let titles: Vec<&str> = all.iter().map(|t| t.title()).collect();
    assert_eq!(titles, ["Search", "Dashboard", "Library", "Calendar", "Downloads", "Missing"]);
    for (i, t) in all.iter().enumerate() {
        assert_eq!(t.index(), i);
        let digit = char::from(b'1' + i as u8);
        assert_eq!(Tab::from_digit(digit), Some(*t));
    }
    assert_eq!(Tab::from_digit('0'), None);
    assert_eq!(Tab::from_digit('7'), None);
}

#[test]
fn tab_cycling_wraps_and_next_undoes_prev() {
    assert_eq!(Tab::Missing.next(), Tab::Search);
    assert_eq!(Tab::Search.prev(), Tab::Missing);
    assert_eq!(Tab::Search.next(), Tab::Dashboard);
    for t in Tab::all() {
        assert_eq!(t.next().prev(), t);
        assert_eq!(t.prev().next(), t);
        let mut u = t;
        for _ in 0..6 {
            u = u.next();
        }
        assert_eq!(u, t, "six steps go all the way round");
    }
}

#[test]
fn move_selection_clamps_into_the_list() {
    let mut s = 0usize;
    move_selection(&mut s, -1, 3);
    assert_eq!(s, 0);
    move_selection(&mut s, 1, 3);
    move_selection(&mut s, 1, 3);
    move_selection(&mut s, 1, 3);
    assert_eq!(s, 2);
    let mut s = 7usize;
    move_selection(&mut s, 1, 0);
    assert_eq!(s, 0, "an empty list resets the cursor");
    let mut s = 9usize;
    move_selection(&mut s, -1, 4);
    assert_eq!(s, 3, "a cursor past a shrunk list comes back into range");
}

#[test]
fn loadable_set_and_queries() {
    let mut l: Loadable<u32> = Loadable::default();
    assert!(l.ready().is_none());
    assert!(!l.is_loading());
    l = Loadable::Loading;
    assert!(l.is_loading());
    l.set(Ok(5));
    assert_eq!(l.ready(), Some(&5));
    l.set(Err("boom".into()));
    assert_eq!(l.failed().map(|s| s.as_str()), Some("boom"));
    assert!(l.ready().is_none());
}

#[test]
fn edit_modal_points_at_the_current_profile() {
    let mut m = EditModal {
        id: 1,
        is_movie: true,
        title: "Alien".into(),
        options: Loadable::Loading,
        current_profile_id: Some(6),
        profile_idx: 0,
        monitored: true,
        field: EditField::Profile,
    };
    m.sync_profile_idx();
    assert_eq!(m.profile_idx, 0, "nothing to point at before the list arrives");
    m.options.set(Ok((vec![profile(4, "SD"), profile(6, "HD"), profile(6, "dup")], vec![])));
    m.sync_profile_idx();
    assert_eq!(m.profile_idx, 1);
    m.current_profile_id = Some(99);
    m.sync_profile_idx();
    assert_eq!(m.profile_idx, 0, "an unknown profile falls back to the first entry");
}

#[test]
fn global_keys_dispatch() {
    assert_eq!(dispatch_key(Tab::Library, Key::Char('c'), true, true, false, false), Dispatch::Quit);
    assert_eq!(dispatch_key(Tab::Library, Key::Char('q'), false, true, false, false), Dispatch::Modal);
    assert_eq!(dispatch_key(Tab::Search, Key::Char('q'), false, false, true, false), Dispatch::SearchInput);
    assert_eq!(dispatch_key(Tab::Library, Key::Char('q'), false, false, false, true), Dispatch::FilterInput);
    assert_eq!(dispatch_key(Tab::Search, Key::Char('q'), false, false, false, true), Dispatch::Quit);
    assert_eq!(dispatch_key(Tab::Missing, Key::Char('?'), false, false, false, false), Dispatch::Help);
    assert_eq!(dispatch_key(Tab::Missing, Key::Char('r'), false, false, false, false), Dispatch::Refresh);
    assert_eq!(
        dispatch_key(Tab::Missing, Key::Char('3'), false, false, false, false),
        Dispatch::SwitchTab(Tab::Library)
    );
    assert_eq!(dispatch_key(Tab::Missing, Key::Tab, false, false, false, false), Dispatch::SwitchTab(Tab::Search));
    assert_eq!(
        dispatch_key(Tab::Search, Key::BackTab, false, false, false, false),
        Dispatch::SwitchTab(Tab::Missing)
    );
    assert_eq!(dispatch_key(Tab::Library, Key::Char('j'), false, false, false, false), Dispatch::Screen);
}

#[test]
fn library_keys() {
    let mut st = LibraryState::default();
    assert_eq!(library_key(&mut st, Key::Char('l'), 3), LibraryCommand::Nothing);
    assert_eq!(st.kind, MediaKind::Series);
    assert_eq!(library_key(&mut st, Key::Down, 3), LibraryCommand::Nothing);
    assert_eq!(st.selected, 1);
    assert_eq!(library_key(&mut st, Key::Char('G'), 3), LibraryCommand::Nothing);
    assert_eq!(st.selected, 2);
    assert_eq!(library_key(&mut st, Key::Char('e'), 3), LibraryCommand::Edit);
    assert_eq!(library_key(&mut st, Key::Char('S'), 3), LibraryCommand::SearchRelease);
    assert_eq!(library_key(&mut st, Key::Char('d'), 3), LibraryCommand::Delete);
    assert_eq!(library_key(&mut st, Key::Left, 3), LibraryCommand::Nothing);
    assert_eq!((st.kind, st.selected), (MediaKind::Movies, 0));
    library_key(&mut st, Key::Char('/'), 3);
    assert!(st.editing_filter);
    assert_eq!(library_key(&mut st, Key::Char('s'), 3), LibraryCommand::Nothing);
    assert_eq!(st.kind, MediaKind::Series, "s shows series");
    assert_eq!(library_key(&mut st, Key::Char('m'), 3), LibraryCommand::Nothing);
    assert_eq!(st.kind, MediaKind::Movies, "m shows movies");
}

#[test]
fn refresh_asks_only_configured_services() {
    let c = Configured { radarr: true, sonarr: false, plex: false, qbit: true, nzbget: false };
    let p = refresh_plan(Tab::Downloads, c);
    assert!(p.radarr_queue && !p.sonarr_queue && p.torrents && !p.nzb);
    assert!(p.fetch_downloads && p.reset_download_ticks);
    let p = refresh_plan(Tab::Calendar, c);
    assert!(p.calendar && p.fetch_calendar);
    let p = refresh_plan(Tab::Library, c);
    assert!(p.movies && !p.series);
    let p = refresh_plan(Tab::Search, c);
    assert!(!p.fetch_dashboard && !p.movies && !p.calendar);
    let first = FirstVisit { dashboard: true, calendar: false, downloads: true, missing: false };
    let l = load_plan(Tab::Dashboard, first);
    assert!(l.refresh && l.ensure_library);
    let l = load_plan(Tab::Calendar, first);
    assert!(!l.refresh && !l.ensure_library);
}

#[test]
fn filter_typing() {
    let mut st = LibraryState::default();
    st.editing_filter = true;
    st.selected = 4;
    assert!(!filter_input(&mut st, Key::Char('a')));
    filter_input(&mut st, Key::Char('l'));
    assert_eq!((st.filter.as_str(), st.selected), ("al", 0));
    filter_input(&mut st, Key::Backspace);
    assert_eq!(st.filter, "a");
    assert!(filter_input(&mut st, Key::Down), "navigation keys are handled again");
    assert!(!st.editing_filter);
    assert_eq!(st.filter, "a", "leaving with a navigation key keeps the filter");
    st.editing_filter = true;
    filter_input(&mut st, Key::Esc);
    assert_eq!((st.filter.as_str(), st.editing_filter), ("", false));
}

#[test]
fn downloads_and_missing_keys() {
    let mut s = 0usize;
    assert_eq!(downloads_key(&mut s, Key::Char('j'), 2), DownloadsCommand::Nothing);
    assert_eq!(s, 1);
    assert_eq!(downloads_key(&mut s, Key::Char('p'), 2), DownloadsCommand::Pause);
    assert_eq!(downloads_key(&mut s, Key::Char('P'), 2), DownloadsCommand::Resume);
    assert_eq!(downloads_key(&mut s, Key::Char('b'), 2), DownloadsCommand::Blocklist);
    assert_eq!(missing_key(&mut s, Key::Up, 2), MissingCommand::Nothing);
    assert_eq!(s, 0);
    assert_eq!(missing_key(&mut s, Key::Char('A'), 2), MissingCommand::SearchAll);
    assert_eq!(missing_key(&mut s, Key::Char('s'), 2), MissingCommand::SearchSelected);
}

#[test]
fn dialog_keys() {
    assert_eq!(confirm_key(Key::Enter, true, true), ConfirmKey::Accept(true));
    assert_eq!(confirm_key(Key::Char('f'), true, false), ConfirmKey::Stay(true));
    assert_eq!(confirm_key(Key::Char('f'), false, false), ConfirmKey::Stay(false));
    assert_eq!(confirm_key(Key::Char('q'), true, true), ConfirmKey::Cancel);
    assert_eq!(add_key(Key::Char(' ')), AddKey::Cycle(1));
    assert_eq!(add_key(Key::Left), AddKey::Cycle(-1));
    assert_eq!(add_key(Key::BackTab), AddKey::PrevField);
    assert_eq!(add_key(Key::Enter), AddKey::Submit);
}

#[test]
fn add_dialog_focus_and_cycling() {
    assert_eq!(add_field_next(AddField::Confirm), AddField::Profile);
    assert_eq!(add_field_prev(AddField::Profile), AddField::Confirm);
    for f in [AddField::Profile, AddField::Root, AddField::Monitored, AddField::SearchOnAdd, AddField::Confirm] {
        assert_eq!(add_field_prev(add_field_next(f)), f);
    }
    let options = Loadable::Ready((vec![profile(1, "a"), profile(2, "b"), profile(3, "c")], vec![root("/m")]));
    let mut sel = AddSelection {
        profile_idx: 0,
        root_idx: 0,
        field: AddField::Profile,
        monitored: true,
        search_on_add: true,
    };
    add_cycle(&mut sel, &options, -1);
    assert_eq!(sel.profile_idx, 2, "cycling left from the first wraps to the last");
    add_cycle(&mut sel, &options, 1);
    assert_eq!(sel.profile_idx, 0);
    add_cycle(&mut sel, &options, -7);
    assert_eq!(sel.profile_idx, 2);
    sel.field = AddField::Monitored;
    add_cycle(&mut sel, &options, 1);
    assert!(!sel.monitored);
    let before = sel;
    add_cycle(&mut sel, &Loadable::Loading, 1);
    assert_eq!(sel, before, "nothing changes before the lists arrive");
}

#[test]
fn add_dialog_submission() {
    let sel = AddSelection {
        profile_idx: 1,
        root_idx: 0,
        field: AddField::Confirm,
        monitored: true,
        search_on_add: false,
    };
    let options = Loadable::Ready((vec![profile(4, "SD"), profile(6, "HD")], vec![root("/movies")]));
    match add_submit(&options, &sel) {
        AddSubmit::Submit { profile_id, root_path } => assert_eq!((profile_id, root_path.as_str()), (6, "/movies")),
        _ => panic!("expected a submission"),
    }
    let no_roots = Loadable::Ready((vec![profile(4, "SD"), profile(6, "HD")], vec![]));
    assert!(matches!(add_submit(&no_roots, &sel), AddSubmit::Invalid(m) if m == "no root folder selected"));
    let far = AddSelection { profile_idx: 5, ..sel };
    assert!(matches!(add_submit(&options, &far), AddSubmit::Invalid(m) if m == "no quality profile selected"));
    assert!(matches!(add_submit(&Loadable::Loading, &sel), AddSubmit::NotReady));
}

#[test]
fn finished_actions_are_described() {
    let a = ConfirmAction::RemoveQueueItem { radarr: true, id: 12, blocklist: true };
    assert_eq!(describe_action(&a), "blocklisted queue item 12");
    let a = ConfirmAction::RemoveQueueItem { radarr: false, id: -3, blocklist: false };
    assert_eq!(describe_action(&a), "removed queue item -3");
    let a = ConfirmAction::DeleteTorrent { hash: "h".into(), name: "ISO".into() };
    assert_eq!(describe_action(&a), "deleted ISO");
    let a = ConfirmAction::DeleteMovie { id: 1, title: "Alien".into() };
    assert_eq!(describe_action(&a), "removed Alien");
}

#[test]
fn ticks_fire_search_expire_toasts_and_refresh_downloads() {
    let mut st = TickState { tick: 9, fire_at: Some(11), toast_ttl: Some(2), ticks_since_refresh: 18 };
    let fx = on_tick(&mut st, true);
    assert!(!fx.run_search && !fx.refresh_downloads);
    assert_eq!(st, TickState { tick: 10, fire_at: Some(11), toast_ttl: Some(1), ticks_since_refresh: 19 });
    let fx = on_tick(&mut st, true);
    assert!(fx.run_search && fx.refresh_downloads);
    assert_eq!(st, TickState { tick: 11, fire_at: None, toast_ttl: None, ticks_since_refresh: 0 });
    let fx = on_tick(&mut st, false);
    assert!(!fx.run_search && !fx.refresh_downloads);
    assert_eq!(st.ticks_since_refresh, 0, "the counter pauses off the downloads screen");
    let mut wrap = TickState { tick: u64::MAX, fire_at: None, toast_ttl: None, ticks_since_refresh: 0 };
    on_tick(&mut wrap, false);
    assert_eq!(wrap.tick, 0, "the clock wraps");
}

#[test]
fn dashboard_cards() {
    let mut dash = DashboardState::default();
    let line = dash.radarr_line("*");
    assert_eq!((line.kind, line.text.as_str()), (StatusKind::Idle, "not configured"));
    dash.radarr = Loadable::Loading;
    let line = dash.radarr_line("*");
    assert_eq!((line.kind, line.text.as_str()), (StatusKind::Checking, "* checking…"));
    dash.radarr.set(Ok(SystemStatus { app_name: None, version: "5.9.1".into(), instance_name: None }));
    let line = dash.radarr_line("*");
    assert_eq!((line.kind, line.text.as_str()), (StatusKind::Healthy, "v5.9.1"));
    dash.qbit.set(Err("x".repeat(30)));
    let line = dash.qbit_line("*");
    assert_eq!(line.kind, StatusKind::Down);
    assert_eq!(line.text, format!("{}…", "x".repeat(24)));
    let plain = status_line(&Loadable::Ready("3.2".to_string()), "hint", "*");
    assert_eq!((plain.kind, plain.text.as_str()), (StatusKind::Healthy, "3.2"));
    assert_eq!(truncate("short", 24), "short");
}

#[test]
fn search_scheduling() {
    assert_eq!(schedule_search(" a ", 10), SearchSchedule::Reset);
    assert_eq!(schedule_search("du", 10), SearchSchedule::FireAt(12));
    assert_eq!(schedule_search("é", 3), SearchSchedule::FireAt(5), "two bytes are enough");
    assert_eq!(search_term("  dune  ").as_deref(), Some("dune"));
    assert!(search_term("   ").is_none());
}

#[test]
fn search_hits_interleave_movies_and_series() {
    assert_eq!(
        search_hits(3, 1),
        vec![HitRef::Movie(0), HitRef::Series(0), HitRef::Movie(1), HitRef::Movie(2)]
    );
    assert_eq!(search_hits(0, 2), vec![HitRef::Series(0), HitRef::Series(1)]);
    assert!(search_hits(0, 0).is_empty());
}

#[test]
fn search_cursor_follows_its_hit() {
    let key = |m: bool, t: &str, y: Option<i32>| SearchKey { is_movie: m, title: t.into(), year: y };
    let hits = vec![key(true, "Dune", Some(2021)), key(false, "Dune", None), key(true, "Dune", Some(1984))];
    assert_eq!(restore_search_selection(&hits, Some(key(true, "Dune", Some(1984)))), 2);
    assert_eq!(restore_search_selection(&hits, Some(key(false, "Dune", Some(1984)))), 0);
    assert_eq!(restore_search_selection(&hits, None), 0);
}

#[test]
fn fetch_errors_read_as_the_error_message() {
    assert_eq!(err_str(CliarrError::Other("boom".into())), "boom");
    assert_eq!(
        err_str(CliarrError::NotConfigured("plex")),
        "plex is not configured; run `cliarr config init` or edit the config file"
    );
    let _ = Service::Plex.label();
}

fn edit_modal(options: Loadable<(Vec<QualityProfile>, Vec<RootFolder>)>) -> EditModal {
    EditModal {
        id: 7,
        is_movie: false,
        title: "Andor".into(),
        options,
        current_profile_id: None,
        profile_idx: 0,
        monitored: false,
        field: EditField::Profile,
    }
}

#[test]
fn edit_dialog_focus_wraps_both_ways() {
    assert_eq!(edit_field_next(EditField::Profile), EditField::Monitored);
    assert_eq!(edit_field_next(EditField::Confirm), EditField::Profile);
    assert_eq!(edit_field_prev(EditField::Profile), EditField::Confirm);
    for f in [EditField::Profile, EditField::Monitored, EditField::Confirm] {
        assert_eq!(edit_field_prev(edit_field_next(f)), f);
    }
}

#[test]
fn edit_dialog_cycles_profiles_and_flips_monitored() {
    let mut m = edit_modal(Loadable::Ready((vec![profile(1, "SD"), profile(2, "HD"), profile(3, "4K")], vec![])));
    edit_cycle(&mut m, -1);
    assert_eq!(m.profile_idx, 2, "left from the first profile wraps to the last");
    edit_cycle(&mut m, 1);
    assert_eq!(m.profile_idx, 0);
    assert!(!m.monitored);
    m.field = EditField::Monitored;
    edit_cycle(&mut m, 1);
    assert!(m.monitored);
    assert_eq!(m.profile_idx, 0);
    m.field = EditField::Confirm;
    edit_cycle(&mut m, 1);
    assert!(m.monitored);
    let mut waiting = edit_modal(Loadable::Loading);
    edit_cycle(&mut waiting, 1);
    assert_eq!(waiting.profile_idx, 0, "nothing to cycle before the list arrives");
}

#[test]
fn edit_dialog_submits_the_chosen_profile() {
    assert_eq!(edit_submit(&edit_modal(Loadable::Loading)), EditSubmit::NotReady);
    let mut m = edit_modal(Loadable::Ready((vec![profile(4, "SD"), profile(9, "HD")], vec![])));
    m.profile_idx = 1;
    assert_eq!(edit_submit(&m), EditSubmit::Submit { profile_id: 9 });
    m.profile_idx = 2;
    assert_eq!(edit_submit(&m), EditSubmit::NoProfile);
}

#[test]
fn status_bar_hints_follow_the_screen() {
    assert_eq!(context_keys(Tab::Downloads, true, false), vec![("Esc", "close"), ("Enter", "confirm")]);
    assert_eq!(
        context_keys(Tab::Missing, false, false),
        vec![("1-6", "tabs"), ("S", "search selected"), ("A", "search all"), ("r", "refresh"), ("?", "help"), ("q", "quit")]
    );
    let lib = context_keys(Tab::Library, false, false);
    assert_eq!(lib[1], ("m/s", "movies/series"));
    assert_eq!(context_keys(Tab::Search, false, true)[3], ("Esc", "done typing"));
    assert_eq!(context_keys(Tab::Calendar, false, false).len(), 4);
}

#[test]
fn downloads_refresh_every_twentieth_tick() {
    let mut st = TickState { tick: 0, fire_at: None, toast_ttl: None, ticks_since_refresh: 0 };
    let fired: Vec<u32> = (1..=60u32).filter(|_| on_tick(&mut st, true).refresh_downloads).collect();
    assert_eq!(fired, [20, 40, 60]);
}

#[test]
fn toast_lives_sixteen_ticks() {
    let mut st = TickState { tick: 0, fire_at: None, toast_ttl: Some(cliarr::tui::app::TOAST_TICKS), ticks_since_refresh: 0 };
    let mut shown = 0;
    while st.toast_ttl.is_some() {
        on_tick(&mut st, false);
        shown += 1;
    }
    assert_eq!(shown, 16);
}

#[test]
fn live_search_fires_two_ticks_after_typing() {
    let at = match schedule_search("dune", 10) {
        SearchSchedule::FireAt(at) => at,
        SearchSchedule::Reset => panic!("a long enough query is scheduled"),
    };
    let mut st = TickState { tick: 10, fire_at: Some(at), toast_ttl: None, ticks_since_refresh: 0 };
    assert!(!on_tick(&mut st, false).run_search);
    assert!(on_tick(&mut st, false).run_search);
    assert!(!on_tick(&mut st, false).run_search, "it fires once");
}

#[test]
fn typing_in_the_search_box() {
    let (mut q, mut editing, mut sel) = (String::from("dun"), true, 0usize);
    assert_eq!(search_input(&mut q, &mut editing, &mut sel, Key::Char('e'), 0, false), SearchInputCommand::Edited);
    assert_eq!(q, "dune");
    assert_eq!(search_input(&mut q, &mut editing, &mut sel, Key::Backspace, 0, false), SearchInputCommand::Edited);
    assert_eq!(q, "dun");
    assert_eq!(search_input(&mut q, &mut editing, &mut sel, Key::Down, 3, false), SearchInputCommand::Nothing);
    assert_eq!(sel, 1);
    assert_eq!(search_input(&mut q, &mut editing, &mut sel, Key::Char('j'), 3, false), SearchInputCommand::Edited);
    assert_eq!((q.as_str(), sel), ("dunj", 1), "letters are text while typing");
    assert_eq!(search_input(&mut q, &mut editing, &mut sel, Key::Enter, 3, true), SearchInputCommand::RunNow);
    assert_eq!(search_input(&mut q, &mut editing, &mut sel, Key::Enter, 3, false), SearchInputCommand::Add);
    assert_eq!(search_input(&mut q, &mut editing, &mut sel, Key::Tab, 3, false), SearchInputCommand::Redispatch);
    assert!(!editing);
    let mut empty = String::new();
    let mut on = true;
    search_input(&mut empty, &mut on, &mut sel, Key::Backspace, 3, false);
    assert_eq!(empty, "");
    search_input(&mut empty, &mut on, &mut sel, Key::Esc, 3, false);
    assert!(!on);
}

#[test]
fn search_screen_keys_when_not_typing() {
    let (mut editing, mut sel) = (false, 0usize);
    assert!(!search_key(&mut editing, &mut sel, Key::Char('j'), 2));
    assert_eq!(sel, 1);
    assert!(!search_key(&mut editing, &mut sel, Key::Char('j'), 2));
    assert_eq!(sel, 1, "the cursor stops at the last result");
    assert!(search_key(&mut editing, &mut sel, Key::Char('a'), 2));
    assert!(search_key(&mut editing, &mut sel, Key::Enter, 2));
    assert!(!editing);
    assert!(!search_key(&mut editing, &mut sel, Key::Char('/'), 2));
    assert!(editing);
}

#[test]
fn add_dialog_starts_on_defaults_and_refuses_library_items() {
    assert_eq!(
        add_start(0, "Dune").unwrap(),
        AddSelection { profile_idx: 0, root_idx: 0, field: AddField::Profile, monitored: true, search_on_add: true }
    );
    assert_eq!(add_start(42, "Dune").unwrap_err(), "\"Dune\" is already in the library");
}

#[test]
fn finished_actions_refetch_their_screen() {
    let r = action_refresh(Tab::Library);
    assert!(r.library && !r.downloads && !r.missing);
    assert!(action_refresh(Tab::Downloads).downloads);
    assert!(action_refresh(Tab::Missing).missing);
    let none = action_refresh(Tab::Search);
    assert!(!none.library && !none.downloads && !none.missing);
}

fn downloads_with_rows() -> DownloadsState<u8, u8, u8> {
    DownloadsState {
        radarr_queue: Loadable::Ready(vec![1, 2]),
        sonarr_queue: Loadable::Failed("down".into()),
        torrents: Loadable::Ready(vec![3]),
        nzb: Loadable::NotAsked,
        selected: 1,
        seq: 7,
    }
}

fn rows_kept(d: &DownloadsState<u8, u8, u8>) -> bool {
    matches!(&d.radarr_queue, Loadable::Ready(v) if v == &vec![1, 2])
        && matches!(&d.sonarr_queue, Loadable::Failed(e) if e == "down")
        && matches!(&d.torrents, Loadable::Ready(v) if v == &vec![3])
        && matches!(d.nzb, Loadable::NotAsked)
        && d.selected == 1
}

#[test]
fn silent_downloads_refresh_keeps_the_rows() {
    let mut st = TickState { tick: 0, fire_at: None, toast_ttl: None, ticks_since_refresh: 0 };
    let mut d = downloads_with_rows();
    for _ in 0..19 {
        let fx = tick_with_downloads(&mut st, &mut d, true);
        assert!(!fx.refresh_downloads);
        assert_eq!(d.seq, 7);
    }
    let fx = tick_with_downloads(&mut st, &mut d, true);
    assert!(fx.refresh_downloads, "the 20th tick refreshes");
    assert_eq!(d.seq, 8);
    assert_eq!(st.ticks_since_refresh, 0);
    assert!(rows_kept(&d), "nothing goes back to loading");
    for _ in 0..40 {
        let fx = tick_with_downloads(&mut st, &mut d, false);
        assert!(!fx.refresh_downloads, "no refresh with a dialog open or on another tab");
    }
    assert_eq!(d.seq, 8);
    assert!(rows_kept(&d));
}

#[test]
fn refresh_numbers_wrap() {
    let mut d = downloads_with_rows();
    d.seq = u64::MAX;
    assert_eq!(d.begin_refresh(), 0);
    assert_eq!(d.seq, 0);
    assert!(rows_kept(&d));
}
