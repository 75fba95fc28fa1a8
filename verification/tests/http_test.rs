use cliarr::api::http::{auth_detail, join_url, response_error, truncate};
use cliarr::error::CliarrError;

#[test]
fn join_preserves_base_path_prefix() {
    let u = join_url("http://nas.local:7878", "/api/v3/movie").unwrap();
    assert_eq!(u.as_str(), "http://nas.local:7878/api/v3/movie");

    let u = join_url("http://nas.local/radarr/", "api/v3/movie").unwrap();
    assert_eq!(u.as_str(), "http://nas.local/radarr/api/v3/movie");
}

#[test]
fn auth_error_surfaces_401_body() {
    let e = response_error("qbittorrent", 401, "Unauthorized");
    let msg = e.message();
    assert!(matches!(e, CliarrError::Auth { .. }), "should classify as Auth");
    assert!(msg.contains("Unauthorized"), "server body must survive; got: {msg}");
}

#[test]
fn auth_error_surfaces_403_ban_body() {
    let body = "Your IP address has been banned after too many failed authentication attempts.";
    let e = response_error("qbittorrent", 403, body);
    assert!(e.message().contains("banned"), "ban reason must survive; got: {}", e.message());
}

#[test]
fn auth_error_empty_body_falls_back_to_hint() {
    let e = response_error("radarr", 401, "");
    let msg = e.message();
    assert!(msg.contains("check the API key/credentials"), "got: {msg}");
    assert!(!msg.contains("()"), "must not render an empty detail; got: {msg}");
}

#[test]
fn non_auth_status_is_api_error_with_body() {
    let e = response_error("sonarr", 500, "boom");
    match e {
        CliarrError::Api { status, body, .. } => {
            assert_eq!(status, 500);
            assert_eq!(body, "boom");
        }
        other => panic!("expected Api error, got {other:?}"),
    }
}

#[test]
fn long_bodies_are_truncated() {
    let long = "x".repeat(500);
    let out = truncate(&long);
    assert!(out.ends_with('…'));
    assert!(out.chars().count() <= 301);
}

#[test]
fn truncate_keeps_exactly_three_hundred_characters_then_an_ellipsis() {
    let out = truncate(&"é".repeat(301));
    assert_eq!(out.chars().count(), 301);
    assert_eq!(out, format!("{}…", "é".repeat(300)));
    assert_eq!(truncate(&"y".repeat(300)), "y".repeat(300));
}

#[test]
fn api_error_body_is_trimmed_before_capping() {
    match response_error("sonarr", 500, "  boom \n") {
        CliarrError::Api { body, .. } => assert_eq!(body, "boom"),
        other => panic!("expected Api error, got {other:?}"),
    }
    assert_eq!(truncate("  kept as is "), "  kept as is ");
}

#[test]
fn auth_detail_prefers_the_server_text_over_the_hint() {
    assert_eq!(auth_detail("  Forbidden \n"), "Forbidden");
    assert!(auth_detail("   ").contains("check the API key/credentials"));
}

#[test]
fn auth_message_names_service_and_detail() {
    let e = response_error("radarr", 403, "nope");
    assert_eq!(e.message(), "radarr: authentication failed: nope");
    assert_eq!(e.exit_code(), 1);
}

#[test]
fn api_message_names_service_status_and_body() {
    let e = response_error("nzbget", 502, "bad gateway");
    assert_eq!(e.message(), "nzbget returned HTTP 502: bad gateway");
}

#[test]
fn join_rejects_unparseable_base() {
    match join_url("not a url", "/api") {
        Err(CliarrError::Url(_)) => {}
        Err(other) => panic!("expected Url error, got {other:?}"),
        Ok(u) => panic!("expected an error, got {}", u.as_str()),
    }
}

#[test]
fn join_adds_exactly_one_slash() {
    let u = join_url("http://nas.local:8989/", "/api/v3/series").unwrap();
    assert_eq!(u.as_str(), "http://nas.local:8989/api/v3/series");
}
