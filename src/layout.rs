//! Where things live: the store root, the per-recipe store directories and
//! the command lines of the mount helpers and the inner builder.

use vstd::prelude::*;
use crate::hashing::{fingerprint_of, hex_digit, lemma_hex_lower_injective, sha256_of};
use crate::text::{chars_of, concat};

verus! {

/// `a` and `b` joined by one `/`: an absolute `b` replaces `a`, and no
/// separator is added after an empty `a` or one that already ends in `/`.
pub open spec fn join_of(a: Seq<char>, b: Seq<char>) -> Seq<char> {
    if b.len() > 0 && b[0] == '/' {
        b
    } else {
        dir_prefix(a) + b
    }
}

/// What `a` becomes in front of a relative path joined to it.
pub open spec fn dir_prefix(a: Seq<char>) -> Seq<char> {
    if a.len() == 0 || a.last() == '/' {
        a
    } else {
        a.push('/')
    }
}

/// Joins two paths as `joinpath` does for recipes.
pub fn join_path(first: &str, second: &str) -> (r: String)
    ensures
        r@ == join_of(first@, second@),
{
    let a = chars_of(first);
    let b = chars_of(second);
    if b.len() > 0 && b[0] == '/' {
        second.to_owned()
    } else if a.len() == 0 || a[a.len() - 1] == '/' {
        concat(first, second)
    } else {
        let with_sep = concat(first, "/");
        proof {
            reveal_strlit("/");
            assert(first@ + "/"@ == first@.push('/'));
        }
        concat(with_sep.as_str(), second)
    }
}

/// The store root: the configured directory when one is given and not
/// empty, else the current directory.
pub open spec fn root_dir_of(configured: Option<Seq<char>>) -> Seq<char> {
    match configured {
        Some(dir) if dir.len() > 0 => dir,
        _ => "."@,
    }
}

/// The store root, from an optional configured directory.
pub fn root_dir(configured: Option<&str>) -> (r: String)
    ensures
        r@ == root_dir_of(
            match configured {
                Some(dir) => Some(dir@),
                None => None,
            },
        ),
{
    match configured {
        Some(dir) => {
            if chars_of(dir).len() > 0 {
                dir.to_owned()
            } else {
                ".".to_owned()
            }
        },
        None => ".".to_owned(),
    }
}

/// `<root>/store`.
pub open spec fn store_dir_of(root: Seq<char>) -> Seq<char> {
    join_of(root, "store"@)
}

/// `<root>/store/<fingerprint>`: the store directory of one recipe.
pub open spec fn hash_dir_of(root: Seq<char>, fingerprint: Seq<char>) -> Seq<char> {
    join_of(store_dir_of(root), fingerprint)
}

/// The store directory of the recipe whose source is `source`.
pub open spec fn store_path_of(root: Seq<char>, source: Seq<u8>) -> Seq<char> {
    hash_dir_of(root, fingerprint_of(source))
}

/// `<root>/store`.
pub fn store_dir(root: &str) -> (r: String)
    ensures
        r@ == store_dir_of(root@),
{
    join_path(root, "store")
}

/// `<root>/store/<fingerprint>`.
pub fn hash_dir(root: &str, fingerprint: &str) -> (r: String)
    ensures
        r@ == hash_dir_of(root@, fingerprint@),
{
    let store = store_dir(root);
    join_path(store.as_str(), fingerprint)
}

/// The sentinel whose presence marks a finished build.
pub fn complete_file(hash_dir: &str) -> (r: String)
    ensures
        r@ == join_of(hash_dir@, ".complete"@),
{
    join_path(hash_dir, ".complete")
}

/// Where a recipe installs its files, seen from the host.
pub fn output_dir(hash_dir: &str) -> (r: String)
    ensures
        r@ == join_of(hash_dir@, "output"@),
{
    join_path(hash_dir, "output")
}

/// The overlay mount point that the inner builder enters.
pub fn merged_dir(root: &str) -> (r: String)
    ensures
        r@ == join_of(store_dir_of(root@), "merged"@),
{
    let store = store_dir(root);
    join_path(store.as_str(), "merged")
}

/// `<root>/helpers/<name>`.
pub fn helper_path(root: &str, name: &str) -> (r: String)
    ensures
        r@ == join_of(join_of(root@, "helpers"@), name@),
{
    let helpers = join_path(root, "helpers");
    join_path(helpers.as_str(), name)
}

/// The install prefix that recipes see inside the sandbox.
pub fn get_output() -> (r: String)
    ensures
        r@ == "/output"@,
{
    "/output".to_owned()
}

proof fn lemma_join_relative_injective(a: Seq<char>, x: Seq<char>, y: Seq<char>)
    requires
        x.len() == 0 || x[0] != '/',
        y.len() == 0 || y[0] != '/',
        join_of(a, x) == join_of(a, y),
    ensures
        x == y,
{
    let p = dir_prefix(a);
    assert((p + x).subrange(p.len() as int, (p + x).len() as int) == x);
    assert((p + y).subrange(p.len() as int, (p + y).len() as int) == y);
}

/// Two recipe sources share a store path only when their SHA-256 digests
/// are equal: an edit that changes the digest moves the store path.
pub proof fn lemma_store_path_tracks_digest(root: Seq<char>, a: Seq<u8>, b: Seq<u8>)
    requires
        store_path_of(root, a) == store_path_of(root, b),
    ensures
        sha256_of(a) == sha256_of(b),
{
    let (x, y) = (fingerprint_of(a), fingerprint_of(b));
    if x.len() > 0 {
        assert(x[0] == hex_digit(sha256_of(a)[0] as int / 16));
    }
    if y.len() > 0 {
        assert(y[0] == hex_digit(sha256_of(b)[0] as int / 16));
    }
    lemma_join_relative_injective(store_dir_of(root), x, y);
    lemma_hex_lower_injective(sha256_of(a), sha256_of(b));
}

} // verus!
