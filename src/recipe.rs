//! A loaded recipe: its file, source, fingerprint and store directory.

use vstd::prelude::*;
use crate::hashing::{fingerprint, fingerprint_of};
use crate::layout::{complete_file, hash_dir, hash_dir_of, join_of, join_path, output_dir};
use crate::text::concat;

verus! {

/// A recipe ready to build: where its file lies, what it holds, and the
/// store directory its fingerprint selects.
pub struct Builder {
    filename: String,
    content: Vec<u8>,
    root: String,
    fingerprint: String,
    hash_dir: String,
    module_dir: String,
}

/// What a `Builder` stands for.
pub struct BuilderView {
    pub filename: Seq<char>,
    pub content: Seq<u8>,
    pub root: Seq<char>,
    pub fingerprint: Seq<char>,
    pub hash_dir: Seq<char>,
    pub module_dir: Seq<char>,
}

impl View for Builder {
    type V = BuilderView;

    closed spec fn view(&self) -> BuilderView {
        BuilderView {
            filename: self.filename@,
            content: self.content@,
            root: self.root@,
            fingerprint: self.fingerprint@,
            hash_dir: self.hash_dir@,
            module_dir: self.module_dir@,
        }
    }
}

impl BuilderView {
    /// The fingerprint is that of the source, and the store directory is
    /// the one it selects under the root.
    pub open spec fn wf(self) -> bool {
        &&& self.fingerprint == fingerprint_of(self.content)
        &&& self.hash_dir == hash_dir_of(self.root, self.fingerprint)
    }
}

/// The recipe file of dependency `name`, beside the recipe in `module_dir`.
pub open spec fn dependency_recipe_of(module_dir: Seq<char>, name: Seq<char>) -> Seq<char> {
    join_of(module_dir, name + ".star"@)
}

impl Builder {
    /// A recipe read from `filename`, which lies in `module_dir`, holding
    /// `content`, built under the store root `root`.
    pub fn new(filename: &str, module_dir: &str, content: Vec<u8>, root: &str) -> (r: Builder)
        ensures
            r@.wf(),
            r@.filename == filename@,
            r@.module_dir == module_dir@,
            r@.content == content@,
            r@.root == root@,
    {
        let fp = fingerprint(content.as_slice());
        let dir = hash_dir(root, fp.as_str());
        Builder {
            filename: filename.to_owned(),
            content,
            root: root.to_owned(),
            fingerprint: fp,
            hash_dir: dir,
            module_dir: module_dir.to_owned(),
        }
    }

    pub fn filename(&self) -> (r: &str)
        ensures
            r@ == self@.filename,
    {
        self.filename.as_str()
    }

    pub fn content(&self) -> (r: &[u8])
        ensures
            r@ == self@.content,
    {
        self.content.as_slice()
    }

    pub fn root(&self) -> (r: &str)
        ensures
            r@ == self@.root,
    {
        self.root.as_str()
    }

    pub fn fingerprint(&self) -> (r: &str)
        ensures
            r@ == self@.fingerprint,
    {
        self.fingerprint.as_str()
    }

    pub fn hash_dir(&self) -> (r: &str)
        ensures
            r@ == self@.hash_dir,
    {
        self.hash_dir.as_str()
    }

    pub fn module_dir(&self) -> (r: &str)
        ensures
            r@ == self@.module_dir,
    {
        self.module_dir.as_str()
    }

    /// The sentinel file of this recipe's store directory.
    pub fn complete_file(&self) -> (r: String)
        ensures
            r@ == join_of(self@.hash_dir, ".complete"@),
    {
        complete_file(self.hash_dir.as_str())
    }

    /// This recipe's install directory, seen from the host.
    pub fn output_dir(&self) -> (r: String)
        ensures
            r@ == join_of(self@.hash_dir, "output"@),
    {
        output_dir(self.hash_dir.as_str())
    }

    /// The recipe file of dependency `name`: `<module_dir>/<name>.star`.
    pub fn dependency_recipe(&self, name: &str) -> (r: String)
        ensures
            r@ == dependency_recipe_of(self@.module_dir, name@),
    {
        let file = concat(name, ".star");
        join_path(self.module_dir.as_str(), file.as_str())
    }
}

} // verus!
