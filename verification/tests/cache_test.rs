use cliarr::api::http::join_url;
use cliarr::cache::{poster_file_name, touch_poster, MAX_CACHED};
use cliarr::commands::calendar::episode_entry;

fn strings(v: &[&str]) -> Vec<String> {
    v.iter().map(|s| s.to_string()).collect()
}

#[test]
fn poster_files_are_named_by_address_digest() {
    assert_eq!(
        poster_file_name("abc"),
        "ba7816bf8f01cfea414140de5dae2223b00361a396177a9cb410ff61f20015ad.img"
    );
    assert_ne!(poster_file_name("https://a/1.jpg"), poster_file_name("https://a/2.jpg"));
    assert_eq!(poster_file_name("https://a/1.jpg"), poster_file_name(&"https://a/1.jpg".to_string()));
}

#[test]
fn poster_memory_cache_is_least_recently_loaded_first() {
    let mut order = strings(&["a", "b", "c"]);
    assert!(touch_poster(&mut order, "b", 3).is_empty());
    assert_eq!(order, ["a", "c", "b"]);
    assert_eq!(touch_poster(&mut order, "d", 3), ["a"]);
    assert_eq!(order, ["c", "b", "d"]);
    let mut many: Vec<String> = Vec::new();
    for i in 0..MAX_CACHED + 5 {
        touch_poster(&mut many, &format!("u{i}"), MAX_CACHED);
    }
    assert_eq!(many.len(), MAX_CACHED);
    assert_eq!(many.last().map(String::as_str), Some(format!("u{}", MAX_CACHED + 4).as_str()));
}

#[test]
fn url_errors_carry_the_parser_reason() {
    let e = join_url("not a url", "/api").err().unwrap();
    let msg = e.message();
    assert!(msg.starts_with("invalid URL: "), "{msg}");
    assert!(msg.len() > "invalid URL: ".len(), "{msg}");
}

#[test]
fn episode_date_falls_back_to_the_leading_date() {
    let ep = episode_entry(Some("2024-05-01 sometime"), "Andor", "S02E01", None);
    assert_eq!(ep.date, "2024-05-01");
    assert_eq!(ep.detail, "S02E01 — ");
}
