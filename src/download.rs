//! The `download` and `unpack` host functions: which file a URL lands in,
//! whether a cached copy may be reused, whether fetched bytes are accepted,
//! and where an archive is unpacked.

use vstd::prelude::*;
use crate::error::BuildError;
use crate::hashing::{check_hash_for_bytes, fingerprint_of};
use crate::layout::{join_of, join_path};
use crate::text::{chars_of, last_index, last_index_of, lemma_last_index_at_least, substring};

verus! {

#[verifier::external_type_specification]
#[verifier::external_body]
pub struct ExParseError(url::ParseError);

/// The path component of `url` as the URL parser normalises it, or `None`
/// when the parser rejects `url`.
pub uninterp spec fn url_path_of(url: Seq<char>) -> Option<Seq<char>>;

/// Relies on `url::Url::parse` and `url::Url::path`: parses an absolute URL
/// and hands back its (percent-encoded) path, or the parser's error.
#[verifier::external_body]
fn parse_url_path(url: &str) -> (r: Result<String, url::ParseError>)
    ensures
        match url_path_of(url@) {
            Some(path) => r matches Ok(p) && p@ == path,
            None => r is Err,
        },
{
    url::Url::parse(url).map(|u| u.path().to_string())
}

/// The last `/`-separated segment of `path`.
pub open spec fn last_segment_of(path: Seq<char>) -> Seq<char> {
    path.subrange(last_index_of(path, '/') + 1, path.len() as int)
}

/// The file a download of a URL with path `path` is stored in: the last
/// path segment, when the path is hierarchical (starts with `/`) and that
/// segment is not empty.
pub open spec fn file_name_of_path(path: Seq<char>) -> Option<Seq<char>> {
    if path.len() > 0 && path[0] == '/' && last_segment_of(path).len() > 0 {
        Some(last_segment_of(path))
    } else {
        None
    }
}

/// The file a download of `url` is stored in, if it names one.
pub open spec fn download_name_of(url: Seq<char>) -> Option<Seq<char>> {
    match url_path_of(url) {
        Some(path) => file_name_of_path(path),
        None => None,
    }
}

/// The last segment of a URL path, as `file_name_of_path` gives it.
pub fn file_name_from_path(path: &str) -> (r: Option<String>)
    ensures
        match file_name_of_path(path@) {
            Some(name) => r matches Some(n) && n@ == name,
            None => r is None,
        },
{
    let chars = chars_of(path);
    if chars.len() == 0 || chars[0] != '/' {
        return None;
    }
    match last_index(&chars, '/') {
        Some(k) => {
            if k + 1 < chars.len() {
                Some(substring(&chars, k + 1, chars.len()))
            } else {
                None
            }
        },
        None => {
            proof {
                lemma_last_index_at_least(chars@, '/', 0);
            }
            None
        },
    }
}

/// The file name under which `download` stores `url`: the URL's last path
/// segment. Fails with `InvalidUrl` when the URL does not parse or names no
/// file.
pub fn download_file_name(url: &str) -> (r: Result<String, BuildError>)
    ensures
        match download_name_of(url@) {
            Some(name) => r matches Ok(n) && n@ == name,
            None => r matches Err(BuildError::InvalidUrl { url: u }) && u@ == url@,
        },
{
    match parse_url_path(url) {
        Ok(path) => match file_name_from_path(path.as_str()) {
            Some(name) => Ok(name),
            None => Err(BuildError::InvalidUrl { url: url.to_owned() }),
        },
        Err(_) => Err(BuildError::InvalidUrl { url: url.to_owned() }),
    }
}

/// Whether a file already present under the download name may be returned
/// as it is: only when its SHA-256 is the expected one.
pub fn cached_copy_valid(cached: Option<&[u8]>, expected_hash: &str) -> (r: bool)
    ensures
        r <==> (cached matches Some(bytes) && fingerprint_of(bytes@) == expected_hash@),
{
    match cached {
        Some(bytes) => check_hash_for_bytes(bytes, expected_hash).is_ok(),
        None => false,
    }
}

/// Judges bytes fetched from `url`. `Ok` means they may be written under
/// the download name; on `HashMismatch` nothing may be written.
pub fn accept_download(url: &str, expected_hash: &str, body: &[u8]) -> (r: Result<(), BuildError>)
    ensures
        r is Ok <==> fingerprint_of(body@) == expected_hash@,
        r matches Err(e) ==> (e matches BuildError::HashMismatch { url: u, expected: x, computed: c }
            && u@ == url@ && x@ == expected_hash@ && c@ == fingerprint_of(body@)),
{
    match check_hash_for_bytes(body, expected_hash) {
        Ok(()) => Ok(()),
        Err(computed) => Err(
            BuildError::HashMismatch {
                url: url.to_owned(),
                expected: expected_hash.to_owned(),
                computed,
            },
        ),
    }
}

/// The stem of a file name: the name without its last extension. A name
/// whose only dot leads it keeps that dot.
pub open spec fn file_stem_of(name: Seq<char>) -> Seq<char> {
    let k = last_index_of(name, '.');
    if k <= 0 {
        name
    } else {
        name.subrange(0, k)
    }
}

/// The directory `unpack` extracts `archive` into: `base` joined with the
/// stem of the archive's file name. `None` when the archive path names no
/// file (it is empty, ends in `/`, or its last segment is `.` or `..`).
pub open spec fn unpack_dir_of(archive: Seq<char>, base: Seq<char>) -> Option<Seq<char>> {
    let name = last_segment_of(archive);
    if name.len() == 0 || name == "."@ || name == ".."@ {
        None
    } else {
        Some(join_of(base, file_stem_of(name)))
    }
}

/// Where `unpack` extracts `archive`: under `/` inside the sandbox, under
/// the recipe's store directory before it.
pub fn unpack_dir(archive: &str, base: &str) -> (r: Option<String>)
    ensures
        match unpack_dir_of(archive@, base@) {
            Some(dir) => r matches Some(d) && d@ == dir,
            None => r is None,
        },
{
    let chars = chars_of(archive);
    let start = match last_index(&chars, '/') {
        Some(k) => k + 1,
        None => 0,
    };
    let name = substring(&chars, start, chars.len());
    let name_chars = chars_of(name.as_str());
    proof {
        reveal_strlit(".");
        reveal_strlit("..");
    }
    if name_chars.len() == 0 || (name_chars.len() == 1 && name_chars[0] == '.') || (
    name_chars.len() == 2 && name_chars[0] == '.' && name_chars[1] == '.') {
        assert(name@.len() == 0 || name@ =~= "."@ || name@ =~= ".."@);
        return None;
    }
    assert(name@ != "."@ && name@ != ".."@) by {
        if name@ == "."@ {
            assert(name@[0] == '.');
        }
        if name@ == ".."@ {
            assert(name@[0] == '.' && name@[1] == '.');
        }
    }
    let stem = match last_index(&name_chars, '.') {
        Some(k) => {
            if k == 0 {
                name
            } else {
                substring(&name_chars, 0, k)
            }
        },
        None => name,
    };
    Some(join_path(base, stem.as_str()))
}

} // verus!
