//! The `run` host function: splitting a command line and judging its exit.

use vstd::prelude::*;
use crate::error::BuildError;
use crate::text::{chars_of, string_of, views_of};

verus! {

/// `s` split at every single space: `n` spaces give `n + 1` pieces, so
/// adjacent spaces give empty pieces.
pub open spec fn split_spaces(s: Seq<char>) -> Seq<Seq<char>>
    decreases s.len(),
{
    if s.len() == 0 {
        seq![Seq::empty()]
    } else {
        let init = split_spaces(s.drop_last());
        if s.last() == ' ' {
            init.push(Seq::empty())
        } else {
            init.update(init.len() - 1, init.last().push(s.last()))
        }
    }
}

proof fn lemma_split_spaces_not_empty(s: Seq<char>)
    ensures
        split_spaces(s).len() >= 1,
    decreases s.len(),
{
    if s.len() > 0 {
        lemma_split_spaces_not_empty(s.drop_last());
    }
}

/// Splits a command line on single spaces: the first piece names the
/// program, the rest are its arguments.
pub fn split_command(command: &str) -> (r: Vec<String>)
    ensures
        views_of(r@) == split_spaces(command@),
        r@.len() >= 1,
{
    let chars = chars_of(command);
    let mut pieces: Vec<String> = Vec::new();
    let mut current: Vec<char> = Vec::new();
    for i in 0..chars.len()
        invariant
            chars@ == command@,
            views_of(pieces@).push(current@) == split_spaces(chars@.take(i as int)),
    {
        proof {
            assert(chars@.take(i + 1).drop_last() == chars@.take(i as int));
            lemma_split_spaces_not_empty(chars@.take(i as int));
        }
        if chars[i] == ' ' {
            let piece = string_of(&current);
            pieces.push(piece);
            current = Vec::new();
            assert(views_of(pieces@).push(current@) == split_spaces(chars@.take(i as int)).push(
                Seq::empty(),
            ));
        } else {
            current.push(chars[i]);
            assert(views_of(pieces@).push(current@) =~= split_spaces(chars@.take(i + 1)));
        }
    }
    assert(chars@.take(chars@.len() as int) == chars@);
    let last = string_of(&current);
    pieces.push(last);
    assert(views_of(pieces@) =~= split_spaces(command@));
    pieces
}

/// Whether an exit status counts as success: a normal exit with code 0.
pub open spec fn exited_ok(code: Option<i32>) -> bool {
    code == Some(0i32)
}

/// Judges a finished command: `Ok(0)` on exit code 0, else the failure
/// with the command and what it printed.
pub fn command_outcome(command: &str, code: Option<i32>, stdout: String, stderr: String) -> (r:
    Result<i32, BuildError>)
    ensures
        exited_ok(code) ==> r == Ok::<i32, BuildError>(0),
        !exited_ok(code) ==> (r matches Err(BuildError::Subprocess { command: c, stdout: o, stderr: e })
            && c@ == command@ && o == stdout && e == stderr),
{
    match code {
        Some(0) => Ok(0),
        _ => Err(BuildError::Subprocess { command: command.to_owned(), stdout, stderr }),
    }
}

} // verus!
