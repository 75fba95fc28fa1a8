use cliarr::commands::movie::series_kept;
use cliarr::config::{config_text, ConfigRead};
use chrono::{Datelike, NaiveDate};
use cliarr::api::models::arr::{QualityProfile, RootFolder, SystemStatus};
use cliarr::api::models::plex::Identity;
use cliarr::api::models::radarr::Movie;
use cliarr::cli::{ArrService, LibraryFilter};
use cliarr::commands::calendar::{
    calendar_lines, episode_entry, movie_entry, nothing_upcoming, sort_calendar, CalendarEntry,
};
use cliarr::commands::config_cmd::{
    arr_detail, nzbget_detail, plex_detail, qbit_detail, secret_answer, service_answer,
    test_report, test_result, url_answer,
};
use cliarr::commands::movie::{
    find_library_item, movie_list_order, pick_new_item, remove_question, resolve_profile,
    resolve_root, LibraryItem,
};
use cliarr::commands::torrents::{expand_hashes, require_hashes, state_is_paused};
use cliarr::commands::{choose_step, confirm_answer, pick_selection, ChooseStep};
use cliarr::error::CliarrError;

fn other(r: Result<impl std::fmt::Debug, CliarrError>) -> String {
    match r {
        Err(CliarrError::Other(m)) => m,
        other => panic!("expected an Other error, got {other:?}"),
    }
}

fn movie(id: i64, title: &str) -> Movie {
    Movie {
        id,
        title: title.to_string(),
        year: None,
        tmdb_id: 1,
        imdb_id: None,
        overview: None,
        status: None,
        monitored: None,
        has_file: None,
        is_available: None,
        runtime: None,
        quality_profile_id: None,
        size_on_disk: None,
        path: None,
        genres: vec![],
        images: vec![],
        in_cinemas: None,
        physical_release: None,
        digital_release: None,
    }
}

#[test]
fn profiles_resolve_by_name_or_id() {
    let profiles = vec![
        QualityProfile { id: 4, name: "HD-1080p".into() },
        QualityProfile { id: 6, name: "Ultra-HD".into() },
    ];
    assert_eq!(resolve_profile(&profiles, "hd-1080P").unwrap(), 4);
    assert_eq!(resolve_profile(&profiles, "6").unwrap(), 6);
    assert_eq!(
        other(resolve_profile(&profiles, "Any")),
        "no quality profile \"Any\" — available: HD-1080p, Ultra-HD"
    );
    assert_eq!(other(resolve_profile(&[], "x")), "no quality profile \"x\" — available: ");
}

#[test]
fn root_folders_resolve_ignoring_trailing_slashes() {
    let roots = vec![
        RootFolder { id: 1, path: "/volume1/movies/".into(), free_space: None, accessible: None },
        RootFolder { id: 2, path: "/volume2/films".into(), free_space: Some(1), accessible: None },
    ];
    assert_eq!(resolve_root(&roots, "/volume1/movies").unwrap(), "/volume1/movies/");
    assert_eq!(resolve_root(&roots, "/volume2/films//").unwrap(), "/volume2/films");
    assert_eq!(
        other(resolve_root(&roots, "/tmp")),
        "no root folder \"/tmp\" — available: /volume1/movies/, /volume2/films"
    );
}

#[test]
fn movie_list_filters_then_sorts_case_insensitively() {
    let mut a = movie(1, "zulu");
    a.monitored = Some(true);
    let mut b = movie(2, "Alpha");
    b.monitored = Some(true);
    b.has_file = Some(true);
    let c = movie(3, "beta");
    let movies = vec![a, b, c];
    assert_eq!(movie_list_order(&movies, None), vec![1, 2, 0]);
    assert_eq!(movie_list_order(&movies, Some(LibraryFilter::Missing)), vec![0]);
    assert_eq!(movie_list_order(&movies, Some(LibraryFilter::Monitored)), vec![1, 0]);
    assert_eq!(movie_list_order(&movies, Some(LibraryFilter::Unmonitored)), vec![2]);
}

#[test]
fn adding_picks_the_lookup_hit_and_refuses_duplicates() {
    let hits = vec![
        LibraryItem { id: 0, ext_id: 10, title: "Other".into() },
        LibraryItem { id: 0, ext_id: 693134, title: "Dune: Part Two".into() },
        LibraryItem { id: 42, ext_id: 438631, title: "Dune".into() },
    ];
    assert_eq!(pick_new_item(&hits, 693134, "movie", "tmdb").unwrap(), 1);
    assert_eq!(
        other(pick_new_item(&hits, 438631, "movie", "tmdb")),
        "\"Dune\" is already in the library (id 42)"
    );
    assert_eq!(other(pick_new_item(&hits, 1, "series", "tvdb")), "no series found for tvdb:1");
    assert_eq!(find_library_item(&hits, 42, "movie").unwrap(), 2);
    assert_eq!(other(find_library_item(&hits, 7, "series")), "no series with id 7 in the library");
    assert_eq!(remove_question("Dune", true), "Remove \"Dune\" and delete its files?");
    assert_eq!(remove_question("Dune", false), "Remove \"Dune\"?");
}

#[test]
fn pick_lists_and_answers() {
    let labels = vec!["HD".to_string(), "SD".to_string()];
    assert!(matches!(choose_step("quality profile", &labels, true), Ok(ChooseStep::Ask)));
    assert_eq!(
        other(choose_step("quality profile", &labels, false).map(|_| ())),
        "multiple quality profile available, pass one explicitly: HD, SD"
    );
    assert!(matches!(choose_step("root folder", &labels[..1], false), Ok(ChooseStep::Pick(0))));
    assert_eq!(other(choose_step("root folder", &[], true).map(|_| ())), "no root folder available");
    assert_eq!(pick_selection("2", 2).unwrap(), 1);
    assert_eq!(pick_selection("+1", 2).unwrap(), 0);
    assert_eq!(other(pick_selection("0", 2)), "invalid selection: 0");
    assert_eq!(other(pick_selection("3", 2)), "invalid selection: 3");
    assert_eq!(other(pick_selection("two", 2)), "invalid selection: two");
    assert!(confirm_answer("YES") && confirm_answer("y"));
    assert!(!confirm_answer("") && !confirm_answer("yep"));
}

#[test]
fn setup_answers() {
    assert!(service_answer("") && service_answer("Y") && service_answer("yes"));
    assert!(!service_answer("n"));
    assert_eq!(url_answer("", None, "http://nas.local:7878").as_deref(), Some("http://nas.local:7878"));
    assert_eq!(
        url_answer("", Some("http://box:1"), "http://nas.local:7878").as_deref(),
        Some("http://box:1")
    );
    assert!(url_answer("not a url", None, "http://x").is_none());
    assert_eq!(secret_answer("", Some("old")).as_deref(), Some("old"));
    assert_eq!(secret_answer("new", Some("old")).as_deref(), Some("new"));
    assert!(secret_answer("", None).is_none());
}

#[test]
fn connectivity_report() {
    let status = SystemStatus { app_name: None, version: "5.9.1".into(), instance_name: None };
    let plex = Identity { friendly_name: None, version: "1.40".into(), machine_identifier: None };
    let results = vec![
        test_result("radarr", Some(Ok(arr_detail("Radarr", &status)))),
        test_result("plex", Some(Ok(plex_detail(&plex)))),
        test_result("qbittorrent", Some(Ok(qbit_detail(" v5.0.4\n")))),
        test_result("nzbget", None),
    ];
    let (lines, outcome) = test_report(&results);
    assert_eq!(lines[0], "✓ radarr       Radarr 5.9.1");
    assert_eq!(lines[1], "✓ plex         Plex 1.40 ()");
    assert_eq!(lines[2], "✓ qbittorrent  qBittorrent v5.0.4");
    assert_eq!(lines[3], "· nzbget       not configured");
    assert!(outcome.is_ok());

    let failed = vec![test_result("sonarr", Some(Err(CliarrError::Other("boom".into()))))];
    let (lines, outcome) = test_report(&failed);
    assert_eq!(lines[0], "✗ sonarr       boom");
    assert_eq!(other(outcome), "one or more services failed the connectivity test");
    assert_eq!(nzbget_detail("24.1"), "NZBGet 24.1");
}

#[test]
fn calendar_takes_the_earliest_release_in_the_window() {
    let day = |s: &str| s.parse::<NaiveDate>().unwrap().num_days_from_ce();
    let mut m = movie(1, "Dune");
    m.year = Some(2024);
    m.digital_release = Some("2024-04-16T00:00:00Z".into());
    m.physical_release = Some("2024-05-14".into());
    m.in_cinemas = Some("2024-03-01".into());
    let e = movie_entry(&m, day("2024-04-01"), day("2024-05-31")).unwrap();
    assert_eq!((e.date.as_str(), e.service.as_str(), e.detail.as_str()), ("2024-04-16", "radarr", "(2024)"));
    assert!(movie_entry(&m, day("2024-06-01"), day("2024-06-30")).is_none());
    m.digital_release = Some("soon".into());
    let e = movie_entry(&m, day("2024-02-01"), day("2024-05-31")).unwrap();
    assert_eq!(e.date, "2024-03-01");
}

#[test]
fn calendar_sorts_by_date_then_title_and_groups_by_day() {
    let entry = |d: &str, t: &str| CalendarEntry {
        date: d.into(),
        service: "sonarr".into(),
        title: t.into(),
        detail: "S01E01 — x".into(),
    };
    let sorted = sort_calendar(&[entry("2024-05-02", "B"), entry("2024-05-01", "Z"), entry("2024-05-02", "A")]);
    let order: Vec<(&str, &str)> = sorted.iter().map(|e| (e.date.as_str(), e.title.as_str())).collect();
    assert_eq!(order, [("2024-05-01", "Z"), ("2024-05-02", "A"), ("2024-05-02", "B")]);
    let lines = calendar_lines(&sorted);
    assert_eq!(
        lines,
        [
            "",
            "2024-05-01",
            "  [sonarr] Z S01E01 — x",
            "",
            "2024-05-02",
            "  [sonarr] A S01E01 — x",
            "  [sonarr] B S01E01 — x",
        ]
    );
    let ep = episode_entry(None, "Severance", "S02E03", Some("Who Is Alive?"));
    assert_eq!((ep.date.as_str(), ep.detail.as_str()), ("", "S02E03 — Who Is Alive?"));
    assert_eq!(nothing_upcoming(7), "nothing upcoming in the next 7 days");
}

#[test]
fn torrent_prefixes_expand_to_unique_hashes() {
    let all = vec!["abc123".to_string(), "abd456".to_string(), "ffff00".to_string()];
    assert_eq!(expand_hashes(&all, &["ABC".to_string(), "ff".to_string()]).unwrap(), ["abc123", "ffff00"]);
    assert_eq!(other(expand_hashes(&all, &["ab".to_string()])), "hash prefix ab is ambiguous (2 matches)");
    assert_eq!(other(expand_hashes(&all, &["99".to_string()])), "no torrent matches hash 99");
    assert_eq!(other(require_hashes(&[])), "no torrent hashes given");
    assert!(state_is_paused("pausedDL") && state_is_paused("stoppedUP"));
    assert!(!state_is_paused("downloading"));
    assert!(ArrService::All.includes_radarr() && !ArrService::Sonarr.includes_radarr());
}

#[test]
fn listings_read_the_configured_services() {
    assert!(matches!(ArrService::All.sources(true, false), Ok((true, false))));
    assert!(matches!(ArrService::Sonarr.sources(true, true), Ok((false, true))));
    assert!(matches!(ArrService::Radarr.sources(false, true), Err(cliarr::error::CliarrError::NotConfigured("radarr"))));
    assert!(matches!(ArrService::Sonarr.sources(true, false), Err(cliarr::error::CliarrError::NotConfigured("sonarr"))));
}

#[test]
fn release_dates_need_a_whole_date_head() {
    let day = |s: &str| s.parse::<NaiveDate>().unwrap().num_days_from_ce();
    let mut m = movie(1, "Dune");
    m.in_cinemas = Some("2024-05-0é".into());
    assert!(movie_entry(&m, day("2024-01-01"), day("2024-12-31")).is_none(), "byte ten falls inside a character");
    m.in_cinemas = Some("2024-05-01T12:00:00Z".into());
    assert_eq!(movie_entry(&m, day("2024-01-01"), day("2024-12-31")).unwrap().date, "2024-05-01");
}

#[test]
fn expanding_no_prefixes_is_an_error() {
    let all = vec!["abc123".to_string()];
    assert_eq!(other(expand_hashes(&all, &[])), "no torrent hashes given");
}

#[test]
fn episode_day_is_near_the_utc_day() {
    let ep = episode_entry(Some("2024-05-01T12:00:00Z"), "Andor", "S02E01", None);
    assert!(["2024-04-30", "2024-05-01", "2024-05-02"].contains(&ep.date.as_str()), "{}", ep.date);
}

#[test]
fn series_filters() {
    assert!(series_kept(None, true, None));
    assert!(series_kept(Some(true), true, Some(LibraryFilter::Missing)));
    assert!(!series_kept(Some(true), false, Some(LibraryFilter::Missing)));
    assert!(!series_kept(None, true, Some(LibraryFilter::Missing)));
    assert!(series_kept(Some(true), false, Some(LibraryFilter::Monitored)));
    assert!(!series_kept(Some(false), false, Some(LibraryFilter::Monitored)));
    assert!(series_kept(None, false, Some(LibraryFilter::Unmonitored)));
    assert!(!series_kept(Some(true), false, Some(LibraryFilter::Unmonitored)));
}

#[test]
fn config_read_outcomes() {
    let text = config_text("/c.toml", ConfigRead::Text("[ui]".into()), false);
    assert!(matches!(text, Ok(Some(ref t)) if t == "[ui]"));
    assert!(matches!(config_text("/c.toml", ConfigRead::NotFound("gone".into()), true), Ok(None)));
    match config_text("/c.toml", ConfigRead::NotFound("gone".into()), false) {
        Err(CliarrError::Config(m)) => {
            assert_eq!(m, "cannot read /c.toml (gone); run `cliarr config init` to create it")
        }
        other => panic!("unexpected {other:?}"),
    }
    match config_text("/c.toml", ConfigRead::Failed("denied".into()), true) {
        Err(CliarrError::Config(m)) => assert_eq!(m, "cannot read /c.toml (denied)"),
        other => panic!("unexpected {other:?}"),
    }
}
