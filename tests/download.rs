use sha2::Digest;
use tuvix::download::{accept_download, cached_copy_valid, download_file_name, file_name_from_path, unpack_dir};
use tuvix::error::BuildError;

fn sha256_hex(bytes: &[u8]) -> String {
    sha2::Sha256::digest(bytes).iter().map(|b| format!("{:02x}", b)).collect()
}

#[test]
fn download_name_is_last_segment() {
    assert_eq!(download_file_name("http://x/foo.tar.xz"), Ok("foo.tar.xz".to_string()));
    assert_eq!(download_file_name("https://example.org/a/b/zsh-5.9.tar.xz"), Ok("zsh-5.9.tar.xz".to_string()));
    assert_eq!(download_file_name("http://x/a/b.tgz?x=1#frag"), Ok("b.tgz".to_string()));
}

#[test]
fn download_name_rejects_urls_without_file() {
    let invalid = |u: &str| Err(BuildError::InvalidUrl { url: u.to_string() });
    assert_eq!(download_file_name("http://x/"), invalid("http://x/"));
    assert_eq!(download_file_name("not a url"), invalid("not a url"));
    assert_eq!(download_file_name("mailto:someone@example.org"), invalid("mailto:someone@example.org"));
}

#[test]
fn file_name_from_url_path() {
    assert_eq!(file_name_from_path("/a/b.c"), Some("b.c".to_string()));
    assert_eq!(file_name_from_path("/f"), Some("f".to_string()));
    assert_eq!(file_name_from_path("/a/"), None);
    assert_eq!(file_name_from_path("a/b"), None);
    assert_eq!(file_name_from_path(""), None);
}

#[test]
fn cached_download_is_reused() {
    let bytes = b"pretend this is an xz archive".to_vec();
    let h = sha256_hex(&bytes);
    assert_eq!(download_file_name("http://x/foo.tar.xz"), Ok("foo.tar.xz".to_string()));
    assert!(cached_copy_valid(Some(&bytes), &h));
}

#[test]
fn stale_cache_is_fetched_again() {
    let bytes = b"old contents".to_vec();
    let h = sha256_hex(b"new contents");
    assert!(!cached_copy_valid(Some(&bytes), &h));
    assert!(!cached_copy_valid(None, &h));
}

#[test]
fn hash_mismatch_is_rejected() {
    let expected = "00".repeat(32);
    let body = b"served bytes";
    assert_eq!(
        accept_download("http://x/f", &expected, body),
        Err(BuildError::HashMismatch {
            url: "http://x/f".to_string(),
            expected: expected.clone(),
            computed: sha256_hex(body),
        })
    );
}

#[test]
fn matching_download_is_accepted() {
    let body = b"served bytes";
    assert_eq!(accept_download("http://x/f", &sha256_hex(body), body), Ok(()));
}

#[test]
fn unpack_dir_uses_file_stem() {
    assert_eq!(unpack_dir("foo.tar.xz", "/"), Some("/foo.tar".to_string()));
    assert_eq!(unpack_dir("dl/zsh-5.9.tar.xz", "/srv/store/ab"), Some("/srv/store/ab/zsh-5.9.tar".to_string()));
    assert_eq!(unpack_dir("archive", "/"), Some("/archive".to_string()));
    assert_eq!(unpack_dir(".hidden", "/"), Some("/.hidden".to_string()));
}

#[test]
fn unpack_dir_needs_a_file_name() {
    assert_eq!(unpack_dir("", "/"), None);
    assert_eq!(unpack_dir("dir/", "/"), None);
    assert_eq!(unpack_dir("..", "/"), None);
}

#[test]
fn unpack_dir_is_deterministic() {
    assert_eq!(unpack_dir("foo.tar.xz", "/"), unpack_dir("foo.tar.xz", "/"));
}
