use cliarr::api::nzbget::rpc_failure;
use cliarr::api::qbittorrent::{hashes_field, login_result, pause_path, resume_path, uses_stop_start};
use cliarr::error::CliarrError;
use cliarr::update::{latest_after_refresh, latest_release_failure, CheckCache, Release, CURRENT_VERSION};

#[test]
fn nzbget_error_member_becomes_api_error() {
    match rpc_failure("editqueue", Some("\"Invalid parameter\""), false) {
        Some(CliarrError::Api { service, status, body }) => {
            assert_eq!((service, status), ("nzbget", 200));
            assert_eq!(body, "RPC error from editqueue: \"Invalid parameter\"");
        }
        other => panic!("expected an API error, got {other:?}"),
    }
    match rpc_failure("version", None, false) {
        Some(CliarrError::Other(m)) => assert_eq!(m, "nzbget: no result from version"),
        other => panic!("expected a missing-result error, got {other:?}"),
    }
    assert!(rpc_failure("version", None, true).is_none());
}

#[test]
fn qbit_login_accepts_only_ok() {
    assert!(login_result("Ok.").is_ok());
    assert!(login_result("  Ok.\n").is_ok());
    match login_result("Fails.") {
        Err(CliarrError::Auth { service, detail }) => {
            assert_eq!((service, detail.as_str()), ("qbittorrent", "Fails."));
        }
        other => panic!("expected an auth error, got {other:?}"),
    }
}

#[test]
fn qbit_endpoint_flavour_follows_webapi_version() {
    assert!(uses_stop_start("2.11.2"));
    assert!(uses_stop_start("3.0"));
    assert!(!uses_stop_start("2.9.3"));
    assert!(!uses_stop_start("garbage"), "unparseable versions count as 2.0");
    assert_eq!(pause_path(true), "/api/v2/torrents/stop");
    assert_eq!(pause_path(false), "/api/v2/torrents/pause");
    assert_eq!(resume_path(true), "/api/v2/torrents/start");
    assert_eq!(resume_path(false), "/api/v2/torrents/resume");
    assert_eq!(hashes_field(&["a1".to_string(), "b2".to_string()]), "a1|b2");
}

#[test]
fn latest_release_failures_are_classified() {
    match latest_release_failure(404, "") {
        Some(CliarrError::Other(m)) => assert!(m.starts_with("no releases published yet at https://github.com/")),
        other => panic!("expected no-releases, got {other:?}"),
    }
    assert!(latest_release_failure(200, "").is_none());
    match latest_release_failure(500, " boom ") {
        Some(CliarrError::Api { service, status, body }) => {
            assert_eq!((service, status, body.as_str()), ("GitHub", 500, "boom"));
        }
        other => panic!("expected an API error, got {other:?}"),
    }
}

#[test]
fn refresh_records_the_best_known_version() {
    let cached = Some(CheckCache { checked_at: 1, latest: "0.3.0".into() });
    let release = Release { tag_name: "v0.4.0".into(), assets: vec![] };
    assert_eq!(latest_after_refresh(&Ok(release), &cached), "0.4.0");
    let none: Result<Release, CliarrError> = Err(CliarrError::Other("no releases".into()));
    assert_eq!(latest_after_refresh(&none, &cached), CURRENT_VERSION);
    let down: Result<Release, CliarrError> = Err(CliarrError::Config("x".into()));
    assert_eq!(latest_after_refresh(&down, &cached), "0.3.0");
    assert_eq!(latest_after_refresh(&down, &None), CURRENT_VERSION);
}
