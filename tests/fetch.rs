use sha2::Digest;
use tuvix::error::BuildError;
use tuvix::fetch::{Download, FetchAction, FetchEvent};

fn sha256_hex(bytes: &[u8]) -> String {
    sha2::Sha256::digest(bytes).iter().map(|b| format!("{:02x}", b)).collect()
}

#[test]
fn cached_download_skips_fetch() {
    let contents = b"foo archive bytes".to_vec();
    let h = sha256_hex(&contents);
    let mut d = Download::new("http://x/foo.tar.xz", &h);
    assert_eq!(d.file_name(), "foo.tar.xz");
    assert_eq!(d.next_action(), FetchAction::ReadCached);
    d.handle(FetchEvent::Cached { contents: Some(contents) });
    assert_eq!(d.next_action(), FetchAction::Finish);
    assert_eq!(d.finish(), Ok("foo.tar.xz".to_string()));
}

#[test]
fn stale_cached_copy_is_fetched_and_written() {
    let served = b"fresh bytes".to_vec();
    let h = sha256_hex(&served);
    let mut d = Download::new("http://x/foo.tar.xz", &h);
    d.handle(FetchEvent::Cached { contents: Some(b"stale".to_vec()) });
    assert_eq!(d.next_action(), FetchAction::Fetch);
    d.handle(FetchEvent::Fetched { body: served.clone() });
    assert_eq!(d.next_action(), FetchAction::Write);
    assert_eq!(d.body(), served.as_slice());
    d.handle(FetchEvent::Written);
    assert_eq!(d.finish(), Ok("foo.tar.xz".to_string()));
}

#[test]
fn missing_file_is_fetched() {
    let served = b"bytes".to_vec();
    let mut d = Download::new("http://x/f", &sha256_hex(&served));
    d.handle(FetchEvent::Cached { contents: None });
    assert_eq!(d.next_action(), FetchAction::Fetch);
}

#[test]
fn mismatched_fetch_fails_without_write() {
    let expected = "00".repeat(32);
    let mut d = Download::new("http://x/f", &expected);
    d.handle(FetchEvent::Cached { contents: None });
    d.handle(FetchEvent::Fetched { body: b"served".to_vec() });
    assert_eq!(d.next_action(), FetchAction::Finish);
    assert_eq!(
        d.finish(),
        Err(BuildError::HashMismatch {
            url: "http://x/f".to_string(),
            expected,
            computed: sha256_hex(b"served"),
        })
    );
}

#[test]
fn url_without_file_fails_at_once() {
    let d = Download::new("http://x/", &"00".repeat(32));
    assert_eq!(d.next_action(), FetchAction::Finish);
    assert_eq!(d.finish(), Err(BuildError::InvalidUrl { url: "http://x/".to_string() }));
}

#[test]
fn failed_write_fails_download() {
    let served = b"bytes".to_vec();
    let mut d = Download::new("http://x/f", &sha256_hex(&served));
    d.handle(FetchEvent::Cached { contents: None });
    d.handle(FetchEvent::Fetched { body: served });
    let error = BuildError::RecipeRuntime {
        function: "download".to_string(),
        arguments: vec![],
        message: "read-only".to_string(),
    };
    d.handle(FetchEvent::Failed { error: error.clone() });
    assert_eq!(d.finish(), Err(error));
}
