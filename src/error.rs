//! The ways a build can fail.

use vstd::prelude::*;
use crate::text::{concat, join_strings, joined, push_str, views_of};

verus! {

/// A failure of one build step; each aborts the recipe's build.
#[derive(Debug, Clone, PartialEq, Eq)]
pub enum BuildError {
    /// The recipe file could not be read.
    RecipeIo { path: String, message: String },
    /// The recipe is not valid script text.
    RecipeParse { path: String, message: String },
    /// A host function or the script failed while the recipe ran.
    RecipeRuntime { function: String, arguments: Vec<String>, message: String },
    /// A URL that does not name a file to download.
    InvalidUrl { url: String },
    /// Downloaded bytes whose SHA-256 differs from the expected one.
    HashMismatch { url: String, expected: String, computed: String },
    /// The sandbox root could not be prepared.
    SandboxPrep { step: SandboxStep, path: String, message: String },
    /// A helper, the inner builder or a recipe command exited non-zero.
    Subprocess { command: String, stdout: String, stderr: String },
    /// A recipe depends on itself; the fingerprints of the cycle, outermost first.
    DependencyCycle { cycle: Vec<String> },
    /// The recipe defines no `build` function.
    MissingBuildFunction,
    /// A report that does not answer the step the driver asked for.
    UnexpectedEvent,
}

/// The sandbox preparation step that failed.
#[derive(Debug, Clone, Copy, PartialEq, Eq)]
pub enum SandboxStep {
    MkDir,
    CopyHelper,
    BindMount,
}

/// What a sandbox step was doing, in words.
pub open spec fn step_words(step: SandboxStep) -> Seq<char> {
    match step {
        SandboxStep::MkDir => "making directory"@,
        SandboxStep::CopyHelper => "copying helper to"@,
        SandboxStep::BindMount => "bind-mounting onto"@,
    }
}

/// The one-line account of a failure, naming the stage that failed.
pub open spec fn message_of(e: BuildError) -> Seq<char> {
    match e {
        BuildError::RecipeIo { path, message } => "cannot read recipe "@ + path@ + ": "@ + message@,
        BuildError::RecipeParse { path, message } => "cannot parse recipe "@ + path@ + ": "@
            + message@,
        BuildError::RecipeRuntime { function, arguments, message } => function@ + "("@ + joined(
            views_of(arguments@),
            ", "@,
        ) + ") failed: "@ + message@,
        BuildError::InvalidUrl { url } => "'"@ + url@ + "' does not name a file to download"@,
        BuildError::HashMismatch { url, expected, computed } => computed@ + " != "@ + expected@
            + " for "@ + url@,
        BuildError::SandboxPrep { step, path, message } => "sandbox preparation failed "@
            + step_words(step) + " "@ + path@ + ": "@ + message@,
        BuildError::Subprocess { command, stdout, stderr } => "Failed to run "@ + command@ + ": '"@
            + stdout@ + "' '"@ + stderr@ + "'"@,
        BuildError::DependencyCycle { cycle } => "dependency cycle: "@ + joined(
            views_of(cycle@),
            " -> "@,
        ),
        BuildError::MissingBuildFunction => "Can't find build function"@,
        BuildError::UnexpectedEvent => "the driver was handed a report it did not ask for"@,
    }
}

impl BuildError {
    /// The failure in words, for the error stream.
    pub fn message(&self) -> (r: String)
        ensures
            r@ == message_of(*self),
    {
        match self {
            BuildError::RecipeIo { path, message } => {
                let mut r = concat("cannot read recipe ", path.as_str());
                push_str(&mut r, ": ");
                push_str(&mut r, message.as_str());
                r
            },
            BuildError::RecipeParse { path, message } => {
                let mut r = concat("cannot parse recipe ", path.as_str());
                push_str(&mut r, ": ");
                push_str(&mut r, message.as_str());
                r
            },
            BuildError::RecipeRuntime { function, arguments, message } => {
                let mut r = concat(function.as_str(), "(");
                let args = join_strings(arguments, ", ");
                push_str(&mut r, args.as_str());
                push_str(&mut r, ") failed: ");
                push_str(&mut r, message.as_str());
                r
            },
            BuildError::InvalidUrl { url } => {
                let mut r = concat("'", url.as_str());
                push_str(&mut r, "' does not name a file to download");
                r
            },
            BuildError::HashMismatch { url, expected, computed } => {
                let mut r = concat(computed.as_str(), " != ");
                push_str(&mut r, expected.as_str());
                push_str(&mut r, " for ");
                push_str(&mut r, url.as_str());
                r
            },
            BuildError::SandboxPrep { step, path, message } => {
                let words = match step {
                    SandboxStep::MkDir => "making directory",
                    SandboxStep::CopyHelper => "copying helper to",
                    SandboxStep::BindMount => "bind-mounting onto",
                };
                let mut r = concat("sandbox preparation failed ", words);
                push_str(&mut r, " ");
                push_str(&mut r, path.as_str());
                push_str(&mut r, ": ");
                push_str(&mut r, message.as_str());
                r
            },
            BuildError::Subprocess { command, stdout, stderr } => {
                let mut r = concat("Failed to run ", command.as_str());
                push_str(&mut r, ": '");
                push_str(&mut r, stdout.as_str());
                push_str(&mut r, "' '");
                push_str(&mut r, stderr.as_str());
                push_str(&mut r, "'");
                r
            },
            BuildError::DependencyCycle { cycle } => {
                let chain = join_strings(cycle, " -> ");
                concat("dependency cycle: ", chain.as_str())
            },
            BuildError::MissingBuildFunction => "Can't find build function".to_owned(),
            BuildError::UnexpectedEvent => "the driver was handed a report it did not ask for".to_owned(),
        }
    }
}

} // verus!
