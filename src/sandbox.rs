//! The sandbox assembler: the steps that turn a store directory into a
//! root the inner builder can enter.

use vstd::prelude::*;
use crate::error::SandboxStep;
use crate::layout::{helper_path, join_of, join_path};

verus! {

/// What already exists in the store directory.
#[derive(Debug, Clone, Copy, PartialEq, Eq)]
pub struct SandboxProbe {
    pub bin: bool,
    pub private_bin: bool,
    pub dev: bool,
    pub proc_dir: bool,
    pub tmp: bool,
    /// `dev/null` exists: `/dev` is bound already.
    pub dev_null: bool,
    /// `proc/version` exists: `/proc` is bound already.
    pub proc_version: bool,
}

/// One preparation step. `source` is empty for a directory to create.
#[derive(Debug, Clone, PartialEq, Eq)]
pub struct SandboxAction {
    pub step: SandboxStep,
    pub source: String,
    pub target: String,
}

/// A step as plain values.
pub open spec fn step_view(a: SandboxAction) -> (SandboxStep, Seq<char>, Seq<char>) {
    (a.step, a.source@, a.target@)
}

/// Creating `dir` when it is missing.
pub open spec fn mkdir_if_missing(present: bool, dir: Seq<char>) -> Seq<
    (SandboxStep, Seq<char>, Seq<char>),
> {
    if present {
        Seq::empty()
    } else {
        seq![(SandboxStep::MkDir, Seq::empty(), dir)]
    }
}

/// Binding `host` onto `target` when it is not bound yet.
pub open spec fn bind_if_missing(present: bool, host: Seq<char>, target: Seq<char>) -> Seq<
    (SandboxStep, Seq<char>, Seq<char>),
> {
    if present {
        Seq::empty()
    } else {
        seq![(SandboxStep::BindMount, host, target)]
    }
}

/// The preparation of store directory `h` under store root `root`: first the
/// missing directories, then the two helpers, then the bind mounts that are
/// not in place yet.
pub open spec fn sandbox_plan_of(root: Seq<char>, h: Seq<char>, probe: SandboxProbe) -> Seq<
    (SandboxStep, Seq<char>, Seq<char>),
> {
    mkdir_if_missing(probe.bin, join_of(h, "bin"@)) + mkdir_if_missing(
        probe.private_bin,
        join_of(h, ".bin"@),
    ) + mkdir_if_missing(probe.dev, join_of(h, "dev"@)) + mkdir_if_missing(
        probe.proc_dir,
        join_of(h, "proc"@),
    ) + mkdir_if_missing(probe.tmp, join_of(h, "tmp"@)) + seq![
        (
            SandboxStep::CopyHelper,
            join_of(join_of(root, "helpers"@), "bash"@),
            join_of(join_of(h, "bin"@), "sh"@),
        ),
        (
            SandboxStep::CopyHelper,
            join_of(join_of(root, "helpers"@), "strace"@),
            join_of(join_of(h, ".bin"@), "strace"@),
        ),
    ] + bind_if_missing(probe.dev_null, "/dev"@, join_of(h, "dev"@)) + bind_if_missing(
        probe.proc_version,
        "/proc"@,
        join_of(h, "proc"@),
    )
}

/// The steps of a plan as plain values.
pub open spec fn plan_view(plan: Seq<SandboxAction>) -> Seq<(SandboxStep, Seq<char>, Seq<char>)> {
    plan.map_values(|a: SandboxAction| step_view(a))
}

fn push_step(plan: &mut Vec<SandboxAction>, step: SandboxStep, source: String, target: String)
    ensures
        plan_view(final(plan)@) == plan_view(old(plan)@).push((step, source@, target@)),
{
    let ghost before = plan_view(plan@);
    plan.push(SandboxAction { step, source, target });
    assert(plan_view(plan@) =~= before.push((step, source@, target@)));
}

fn push_mkdir(plan: &mut Vec<SandboxAction>, present: bool, dir: String)
    ensures
        plan_view(final(plan)@) == plan_view(old(plan)@) + mkdir_if_missing(present, dir@),
{
    if !present {
        push_step(plan, SandboxStep::MkDir, String::new(), dir);
    } else {
        assert(plan_view(plan@) =~= plan_view(plan@) + mkdir_if_missing(present, dir@));
    }
}

fn push_bind(plan: &mut Vec<SandboxAction>, present: bool, host: &str, target: String)
    ensures
        plan_view(final(plan)@) == plan_view(old(plan)@) + bind_if_missing(present, host@, target@),
{
    if !present {
        push_step(plan, SandboxStep::BindMount, host.to_owned(), target);
    } else {
        assert(plan_view(plan@) =~= plan_view(plan@) + bind_if_missing(present, host@, target@));
    }
}

/// The steps that prepare store directory `hash_dir` as a root, given what
/// is already there.
pub fn sandbox_plan(root: &str, hash_dir: &str, probe: SandboxProbe) -> (r: Vec<SandboxAction>)
    ensures
        plan_view(r@) == sandbox_plan_of(root@, hash_dir@, probe),
{
    let mut plan: Vec<SandboxAction> = Vec::new();
    let h = hash_dir;
    push_mkdir(&mut plan, probe.bin, join_path(h, "bin"));
    push_mkdir(&mut plan, probe.private_bin, join_path(h, ".bin"));
    push_mkdir(&mut plan, probe.dev, join_path(h, "dev"));
    push_mkdir(&mut plan, probe.proc_dir, join_path(h, "proc"));
    push_mkdir(&mut plan, probe.tmp, join_path(h, "tmp"));
    let ghost dirs = plan_view(plan@);
    let bin = join_path(h, "bin");
    push_step(&mut plan, SandboxStep::CopyHelper, helper_path(root, "bash"), join_path(bin.as_str(), "sh"));
    let private_bin = join_path(h, ".bin");
    push_step(
        &mut plan,
        SandboxStep::CopyHelper,
        helper_path(root, "strace"),
        join_path(private_bin.as_str(), "strace"),
    );
    let ghost copies = plan_view(plan@);
    push_bind(&mut plan, probe.dev_null, "/dev", join_path(h, "dev"));
    push_bind(&mut plan, probe.proc_version, "/proc", join_path(h, "proc"));
    proof {
        let helpers = seq![
            (
                SandboxStep::CopyHelper,
                join_of(join_of(root@, "helpers"@), "bash"@),
                join_of(join_of(h@, "bin"@), "sh"@),
            ),
            (
                SandboxStep::CopyHelper,
                join_of(join_of(root@, "helpers"@), "strace"@),
                join_of(join_of(h@, ".bin"@), "strace"@),
            ),
        ];
        assert(copies =~= dirs + helpers);
    }
    plan
}

} // verus!
