use std::path::PathBuf;

use cliarr::api::models::radarr::Movie;
use cliarr::api::qbittorrent::{finish_probe, flavour_step, FlavourStep};
use cliarr::cache::{poster_from_cache, poster_from_download};
use cliarr::config::Config;
use cliarr::tui::screens::dashboard::{downloaded_count, episodes_on_disk};
use cliarr::tui::screens::search::search_placeholder;

fn tiny_png() -> Vec<u8> {
    let img = image::DynamicImage::new_rgb8(1, 1);
    let mut out = std::io::Cursor::new(Vec::new());
    img.write_to(&mut out, image::ImageFormat::Png).unwrap();
    out.into_inner()
}

#[test]
fn config_override_is_used_as_given() {
    let p = PathBuf::from("/tmp/elsewhere/cliarr.toml");
    assert_eq!(Config::path(Some(p.clone())).unwrap(), p);
}

#[test]
fn posters_are_kept_only_when_they_decode() {
    let png = tiny_png();
    assert!(poster_from_cache(None).is_none());
    assert!(poster_from_cache(Some(b"not an image".to_vec())).is_none());
    assert!(poster_from_cache(Some(png.clone())).is_some());
    assert!(poster_from_download(b"<html>".to_vec()).is_none());
    let (_, keep) = poster_from_download(png.clone()).unwrap();
    assert_eq!(keep, png);
}

#[test]
fn empty_search_results_explain_themselves() {
    assert_eq!(search_placeholder(true, Some("x"), None, "dune", "*"), ("* searching…".to_string(), false));
    assert_eq!(search_placeholder(false, Some("radarr down"), Some("sonarr down"), "dune", "*"), ("radarr down".to_string(), true));
    assert_eq!(search_placeholder(false, None, Some("sonarr down"), "dune", "*"), ("sonarr down".to_string(), true));
    assert_eq!(search_placeholder(false, None, None, " dune ", "*"), ("no results".to_string(), false));
    assert_eq!(search_placeholder(false, None, None, " d ", "*"), ("results appear as you type".to_string(), false));
}

fn movie(has_file: Option<bool>) -> Movie {
    Movie {
        id: 1,
        title: "t".into(),
        year: None,
        tmdb_id: 1,
        imdb_id: None,
        overview: None,
        status: None,
        monitored: None,
        has_file,
        is_available: None,
        runtime: None,
        quality_profile_id: None,
        size_on_disk: None,
        path: None,
        genres: vec![],
        images: vec![],
        in_cinemas: None,
        physical_release: None,
        digital_release: None,
    }
}

#[test]
fn library_card_counts() {
    assert_eq!(downloaded_count(&[movie(Some(true)), movie(Some(false)), movie(None), movie(Some(true))]), 2);
    assert_eq!(episodes_on_disk(&[Some(3), None, Some(10)]), 13);
    assert_eq!(episodes_on_disk(&[Some(i64::MAX), Some(i64::MAX)]), 2 * i64::MAX as i128);
}

#[test]
fn first_probe_is_remembered() {
    let mut cache = None;
    assert_eq!(flavour_step(&cache), FlavourStep::Probe);
    assert_eq!(finish_probe::<()>(&mut cache, Ok("2.11.2".to_string())), Ok(true));
    assert_eq!(cache, Some(true));
    assert_eq!(flavour_step(&cache), FlavourStep::Known(true));
}

#[test]
fn failed_probe_caches_nothing() {
    let mut cache = None;
    assert_eq!(finish_probe(&mut cache, Err("down")), Err("down"));
    assert_eq!(cache, None);
    assert_eq!(flavour_step(&cache), FlavourStep::Probe);
    assert_eq!(finish_probe::<()>(&mut cache, Ok(" 2.8.0 ".to_string())), Ok(false));
    assert_eq!(flavour_step(&cache), FlavourStep::Known(false));
}
