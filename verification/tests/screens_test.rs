use cliarr::api::models::radarr::Movie;
use cliarr::tui::event::Loadable;
use cliarr::tui::screens::downloads::{
    blocklist_confirm, delete_confirm, fetch_error_line, library_delete_confirm, fetch_errors, list_body, restore_download_selection,
    ConfirmDialog, DownloadKey, DownloadTarget, ListBody, NO_ACTIVE_DOWNLOADS,
};
use cliarr::api::arr_core::ArrCore;
use cliarr::api::http::build_client;
use cliarr::api::models::arr::Image;
use cliarr::tui::screens::library::{arr_poster_url, filtered_indices, selected_item};
use cliarr::tui::screens::missing::{missing_title, movie_row, LIBRARY_COMPLETE};
use cliarr::tui::app::ConfirmAction;
use cliarr::tui::theme::Service;

fn titles(ts: &[&str]) -> Loadable<Vec<String>> {
    Loadable::Ready(ts.iter().map(|t| t.to_string()).collect())
}

fn movie(title: &str, year: Option<i32>) -> Movie {
    Movie {
        id: 1,
        title: title.to_string(),
        year,
        tmdb_id: 1,
        imdb_id: None,
        overview: None,
        status: None,
        monitored: None,
        has_file: None,
        is_available: None,
        runtime: None,
        quality_profile_id: None,
        size_on_disk: None,
        path: None,
        genres: vec![],
        images: vec![],
        in_cinemas: None,
        physical_release: None,
        digital_release: None,
    }
}

/// What a list panel renders, from the same rules the screens use.
fn render(rows: &[String], loading: bool, errors: &[String], empty: &str) -> String {
    let mut out = String::new();
    if let Some(line) = fetch_error_line(errors) {
        out.push_str(&line);
        out.push('\n');
    }
    match list_body(rows.len(), loading, errors.len()) {
        ListBody::Rows => out.push_str(&rows.join("\n")),
        ListBody::Loading => out.push_str("⠋ loading…"),
        ListBody::Empty => out.push_str(empty),
        ListBody::ErrorsOnly => {}
    }
    out
}

#[test]
fn filtered_indices_sort_by_title_and_match_case_insensitively() {
    let items = titles(&["The Matrix", "alien", "Aliens"]);
    assert_eq!(filtered_indices(&items, ""), vec![1, 2, 0], "no filter: all, title-sorted");
    assert_eq!(filtered_indices(&items, "ALIEN"), vec![1, 2]);
    assert!(filtered_indices(&items, "zzz").is_empty());
}

#[test]
fn selected_movie_follows_filtered_sorted_order() {
    let list = vec!["The Matrix".to_string(), "Alien".to_string()];
    let items = Loadable::Ready(list.clone());
    let shown = filtered_indices(&items, "");
    let selected = |cursor: usize| selected_item(&items, &shown, cursor).cloned();
    assert_eq!(selected(0).unwrap(), "Alien");
    assert_eq!(selected(1).unwrap(), "The Matrix");
    assert!(selected(5).is_none(), "out-of-range cursor selects nothing");
}

#[test]
fn nothing_selectable_until_data_is_ready() {
    let not_asked: Loadable<Vec<String>> = Loadable::NotAsked;
    let loading: Loadable<Vec<String>> = Loadable::Loading;
    assert!(filtered_indices(&not_asked, "").is_empty());
    assert!(filtered_indices(&loading, "").is_empty());
    assert!(filtered_indices(&not_asked, "").first().is_none());
    assert!(filtered_indices(&loading, "x").first().is_none());
}

#[test]
fn equal_titles_keep_library_order() {
    let items = titles(&["b", "A", "a", "B"]);
    assert_eq!(filtered_indices(&items, ""), vec![1, 2, 0, 3]);
}

#[test]
fn sonarr_only_loading_shows_spinner_not_empty_message() {
    let sonarr: Loadable<Vec<String>> = Loadable::Loading;
    let out = render(&[], sonarr.is_loading(), &[], NO_ACTIVE_DOWNLOADS);
    assert!(out.contains("loading"), "sonarr load in flight must read as loading: {out}");
    assert!(!out.contains("no active downloads"), "must not claim empty while loading: {out}");
}

#[test]
fn failed_queues_are_reported_not_hidden() {
    let sonarr: Loadable<Vec<String>> = Loadable::Failed("connection refused".into());
    let errors = fetch_errors(&[
        ("radarr", None),
        ("sonarr", sonarr.failed().cloned()),
        ("qbit", None),
        ("nzbget", None),
    ]);
    let out = render(&[], false, &errors, NO_ACTIVE_DOWNLOADS);
    assert!(out.contains("sonarr: connection refused"), "error must be shown: {out}");
    assert!(!out.contains("no active downloads"), "failure must not read as empty: {out}");
}

#[test]
fn all_ready_and_empty_reads_as_no_active_downloads() {
    let out = render(&[], false, &[], NO_ACTIVE_DOWNLOADS);
    assert!(out.contains("no active downloads"), "genuinely empty stays friendly: {out}");
}

#[test]
fn stale_downloads_refresh_is_dropped() {
    let mut queue: Loadable<Vec<(i64, String)>> = Loadable::NotAsked;
    let current = 2;
    queue.set_if_current(2, current, Ok(vec![(1, "new".to_string())]));
    queue.set_if_current(1, current, Ok(vec![(9, "old".to_string())]));
    let rows = queue.ready().unwrap();
    assert_eq!(rows.len(), 1, "stale refresh must not replace current data");
    assert_eq!((rows[0].0, rows[0].1.as_str()), (1, "new"));
}

#[test]
fn failed_fetch_is_not_reported_as_complete_library() {
    let radarr: Loadable<Vec<Movie>> = Loadable::Failed("connection refused".into());
    let errors = fetch_errors(&[("radarr", radarr.failed().cloned()), ("sonarr", None)]);
    let out = render(&[], false, &errors, LIBRARY_COMPLETE);
    assert!(out.contains("radarr: connection refused"), "error must be shown: {out}");
    assert!(!out.contains("library is complete"), "failure must not read as complete: {out}");
}

#[test]
fn partial_failure_shows_error_and_surviving_rows() {
    let row = movie_row(&movie("Dune", None));
    let errors = fetch_errors(&[("radarr", None), ("sonarr", Some("timeout".to_string()))]);
    let out = render(&[row.title.clone()], false, &errors, LIBRARY_COMPLETE);
    assert!(out.contains("sonarr: timeout"), "error line expected: {out}");
    assert!(out.contains("Dune"), "working service's rows still expected: {out}");
}

#[test]
fn empty_and_ready_still_reads_as_complete() {
    let out = render(&[], false, &[], LIBRARY_COMPLETE);
    assert!(out.contains("library is complete"), "genuinely empty stays friendly: {out}");
}

#[test]
fn error_line_joins_every_failure() {
    let errors = vec!["radarr: down".to_string(), "qbit: 403".to_string()];
    assert_eq!(fetch_error_line(&errors).unwrap(), "✗ radarr: down · qbit: 403");
    assert!(fetch_error_line(&[]).is_none());
}

#[test]
fn missing_rows_and_title() {
    let row = movie_row(&movie("Alien", Some(1979)));
    assert_eq!(row.detail, "(1979)");
    assert_eq!(row.service, Service::Radarr);
    assert_eq!(missing_title(3, 12), "Missing — 3 movies · 12 episodes");
}

#[test]
fn selection_follows_the_same_download_after_refresh() {
    let rows = vec![
        DownloadKey::Torrent("bbb".into()),
        DownloadKey::Arr(Service::Radarr, 7),
        DownloadKey::Nzb(3),
    ];
    assert_eq!(restore_download_selection(&rows, Some(DownloadKey::Arr(Service::Radarr, 7)), 0), 1);
    assert_eq!(restore_download_selection(&rows, Some(DownloadKey::Arr(Service::Sonarr, 7)), 2), 2);
    assert_eq!(restore_download_selection(&rows, Some(DownloadKey::Nzb(99)), 10), 2);
    assert_eq!(restore_download_selection(&rows, None, 1), 1);
    assert_eq!(restore_download_selection(&[], None, 4), 0);
}

#[test]
fn queue_removal_defaults_to_removing_from_the_download_client() {
    let ConfirmDialog { msg, toggle_label, toggle, action } = delete_confirm(&DownloadTarget::Arr {
        service: Service::Sonarr,
        id: 9,
        title: "Severance".into(),
    });
    assert_eq!(msg, "Remove \"Severance\" from the sonarr queue?");
    assert_eq!(toggle_label, Some("also remove from download client"));
    assert!(toggle);
    assert!(matches!(action, ConfirmAction::RemoveQueueItem { radarr: false, id: 9, blocklist: false }));

    let d = delete_confirm(&DownloadTarget::Torrent { hash: "aaa".into(), name: "ISO".into() });
    assert_eq!(d.msg, "Delete torrent \"ISO\"?");
    assert!(!d.toggle, "torrent data is kept unless asked");

    let d = delete_confirm(&DownloadTarget::Nzb { id: 4, name: "x".into() });
    assert_eq!(d.msg, "Delete \"x\" from the NZBGet queue?");
    assert!(d.toggle_label.is_none());
}

fn poster(url: Option<&str>, remote: Option<&str>) -> Vec<Image> {
    vec![
        Image { cover_type: "fanart".into(), url: Some("/MediaCover/1/fanart.jpg".into()), remote_url: None },
        Image { cover_type: "poster".into(), url: url.map(String::from), remote_url: remote.map(String::from) },
    ]
}

#[test]
fn library_poster_prefers_remote_http_address() {
    let images = poster(Some("/MediaCover/1/poster.jpg"), Some("https://image.tmdb.org/t/p/a.jpg"));
    assert_eq!(
        arr_poster_url(Some("https://image.tmdb.org/t/p/a.jpg"), None, &images).as_deref(),
        Some("https://image.tmdb.org/t/p/a.jpg")
    );
}

#[test]
fn library_poster_falls_back_to_proxied_path_with_api_key() {
    let core = ArrCore::new("radarr", "http://nas.local:7878/radarr/", "SECRET", build_client().into_client());
    let images = poster(Some("/MediaCover/1/poster.jpg"), None);
    assert_eq!(
        arr_poster_url(Some("/MediaCover/1/poster.jpg"), Some(&core), &images).as_deref(),
        Some("http://nas.local:7878/radarr/MediaCover/1/poster.jpg?apikey=SECRET")
    );
    assert_eq!(arr_poster_url(None, None, &images), None, "no service, no proxied address");
    assert_eq!(arr_poster_url(None, Some(&core), &poster(None, None)), None);
}

#[test]
fn blocklisting_applies_to_arr_queue_rows_only() {
    let arr = DownloadTarget::Arr { service: Service::Sonarr, id: 12, title: "Andor S02E01".into() };
    let d = blocklist_confirm(&arr).expect("queue rows can be blocklisted");
    assert_eq!(d.msg, "Blocklist \"Andor S02E01\" and remove it from the queue?");
    assert_eq!(d.toggle_label, Some("also remove from download client"));
    assert!(d.toggle);
    assert!(matches!(d.action, ConfirmAction::RemoveQueueItem { radarr: false, id: 12, blocklist: true }));
    let t = DownloadTarget::Torrent { hash: "abc".into(), name: "x".into() };
    assert!(blocklist_confirm(&t).is_none());
}

#[test]
fn library_removal_keeps_files_unless_asked() {
    let d = library_delete_confirm(true, 5, "Alien");
    assert_eq!(d.msg, "Remove \"Alien\" from Radarr?");
    assert_eq!(d.toggle_label, Some("also delete files"));
    assert!(!d.toggle);
    assert!(matches!(d.action, ConfirmAction::DeleteMovie { id: 5, ref title } if title == "Alien"));
    let d = library_delete_confirm(false, 9, "Andor");
    assert_eq!(d.msg, "Remove \"Andor\" from Sonarr?");
    assert!(matches!(d.action, ConfirmAction::DeleteSeries { id: 9, .. }));
}
