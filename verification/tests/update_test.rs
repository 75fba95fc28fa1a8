use cliarr::update::{asset_name, checksum_for, is_newer, verify_checksum, CheckCache};
use sha2::{Digest, Sha256};

#[test]
fn is_newer_compares_semver() {
    assert_eq!(is_newer("0.1.0", "v0.2.0").unwrap().to_string(), "0.2.0");
    assert_eq!(is_newer("0.1.0", "0.1.1").unwrap().to_string(), "0.1.1");
    assert!(is_newer("0.2.0", "v0.2.0").is_none(), "equal is not newer");
    assert!(is_newer("0.2.0", "v0.1.9").is_none(), "older is not newer");
    assert!(is_newer("0.2.0-rc.1", "v0.2.0").is_some());
    assert!(is_newer("0.2.0", "v0.2.0-rc.1").is_none());
    assert!(is_newer("0.1.0", "nightly").is_none(), "malformed tag is ignored");
    assert!(is_newer("not-a-version", "v9.9.9").is_none());
}

#[test]
fn asset_names_follow_the_release_convention() {
    assert_eq!(asset_name("aarch64-apple-darwin"), "cliarr-aarch64-apple-darwin");
    assert_eq!(
        asset_name("x86_64-pc-windows-msvc"),
        "cliarr-x86_64-pc-windows-msvc.exe"
    );
}

#[test]
fn cache_staleness_boundary_is_24h() {
    let cache = CheckCache { checked_at: 1_000_000, latest: "0.1.0".into() };
    assert!(!cache.is_stale(1_000_000 + 24 * 3600));
    assert!(cache.is_stale(1_000_000 + 24 * 3600 + 1));
    assert!(!cache.is_stale(999_000));
}

#[test]
fn checksums_parse_and_verify() {
    let digest = format!("{:x}", Sha256::digest(b"binary contents"));
    let sums = format!(
        "{digest}  cliarr-aarch64-apple-darwin\naabbcc  *cliarr-x86_64-pc-windows-msvc.exe\n"
    );
    assert_eq!(checksum_for(&sums, "cliarr-aarch64-apple-darwin").as_deref(), Some(digest.as_str()));
    assert_eq!(
        checksum_for(&sums, "cliarr-x86_64-pc-windows-msvc.exe").as_deref(),
        Some("aabbcc"),
        "binary-mode marker is stripped"
    );
    assert!(checksum_for(&sums, "cliarr-x86_64-unknown-linux-gnu").is_none());

    assert!(verify_checksum(b"binary contents", &digest).is_ok());
    assert!(verify_checksum(b"tampered contents", &digest).is_err());
}

#[test]
fn checksum_lines_tolerate_crlf() {
    let sums = "deadbeef  cliarr-x86_64-unknown-linux-gnu\r\n";
    assert_eq!(
        checksum_for(sums, "cliarr-x86_64-unknown-linux-gnu").as_deref(),
        Some("deadbeef")
    );
}

#[test]
fn checksum_mismatch_is_reported_with_both_digests() {
    let err = verify_checksum(b"abc", "00").unwrap_err().message();
    assert!(err.contains("00"), "got: {err}");
    assert!(
        err.contains("ba7816bf8f01cfea414140de5dae2223b00361a396177a9cb410ff61f20015ad"),
        "got: {err}"
    );
}

#[test]
fn cache_is_fresh_right_after_a_check() {
    let cache = CheckCache { checked_at: 5, latest: "0.1.0".into() };
    assert!(!cache.is_stale(5));
    assert!(!cache.is_stale(0));
}

#[test]
fn windows_substring_anywhere_adds_exe() {
    assert_eq!(asset_name("aarch64-pc-windows-gnullvm"), "cliarr-aarch64-pc-windows-gnullvm.exe");
}
