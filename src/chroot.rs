//! Decisions of the inner builder, which runs the recipe's `build` inside
//! the prepared root.

use vstd::prelude::*;
use crate::error::BuildError;

verus! {

/// Where each dependency's output is visible inside the sandbox: the
/// overlay lays every dependency's output over the sandbox root.
pub open spec fn dependency_path_of(name: Seq<char>) -> Seq<char> {
    "/"@
}

/// The `paths` map handed to `build`: one entry per dependency, in the
/// order the recipe lists them, from its name to where its output is seen.
pub fn dependency_paths(dependencies: &Vec<String>) -> (r: Vec<(String, String)>)
    ensures
        r@.len() == dependencies@.len(),
        forall|i: int|
            0 <= i < r@.len() ==> (#[trigger] r@[i]).0@ == dependencies@[i]@ && r@[i].1@
                == dependency_path_of(dependencies@[i]@),
{
    let mut r: Vec<(String, String)> = Vec::new();
    for i in 0..dependencies.len()
        invariant
            r@.len() == i,
            forall|j: int|
                0 <= j < i ==> (#[trigger] r@[j]).0@ == dependencies@[j]@ && r@[j].1@
                    == dependency_path_of(dependencies@[j]@),
    {
        r.push((dependencies[i].clone(), "/".to_owned()));
    }
    r
}

/// The recipe's `build` function must exist before it can be called.
pub fn require_build_function(has_build: bool) -> (r: Result<(), BuildError>)
    ensures
        has_build ==> r is Ok,
        !has_build ==> r == Err::<(), BuildError>(BuildError::MissingBuildFunction),
{
    if has_build {
        Ok(())
    } else {
        Err(BuildError::MissingBuildFunction)
    }
}

} // verus!
