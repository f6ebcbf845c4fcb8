use tuvix::hashing::{check_hash_for_bytes, fingerprint};

const EMPTY_SHA256: &str = "e3b0c44298fc1c149afbf4c8996fb92427ae41e4649b934ca495991b7852b855";
const ABC_SHA256: &str = "ba7816bf8f01cfea414140de5dae2223b00361a396177a9cb410ff61f20015ad";

#[test]
fn fingerprint_of_empty_input() {
    assert_eq!(fingerprint(b""), EMPTY_SHA256);
}

#[test]
fn fingerprint_of_abc() {
    let fp = fingerprint(b"abc");
    assert_eq!(fp, ABC_SHA256);
    assert_eq!(fp.len(), 64);
    assert!(fp.chars().all(|c| c.is_ascii_digit() || ('a'..='f').contains(&c)));
}

#[test]
fn fingerprint_is_deterministic() {
    let source = b"build = lambda ctx: \"ok\"\n";
    assert_eq!(fingerprint(source), fingerprint(source));
}

#[test]
fn fingerprint_changes_with_one_byte() {
    assert_ne!(fingerprint(b"dependencies = [\"a\"]"), fingerprint(b"dependencies = [\"b\"]"));
}

#[test]
fn check_hash_accepts_matching_bytes() {
    assert_eq!(check_hash_for_bytes(b"abc", ABC_SHA256), Ok(()));
}

#[test]
fn check_hash_reports_computed_hash() {
    let expected = "00".repeat(32);
    assert_eq!(check_hash_for_bytes(b"abc", &expected), Err(ABC_SHA256.to_string()));
}

#[test]
fn check_hash_is_case_sensitive() {
    let upper = ABC_SHA256.to_uppercase();
    assert!(check_hash_for_bytes(b"abc", &upper).is_err());
}
