//! What holds of every run of the driver: the states it passes through for
//! any sequence of reports the caller may hand it.

use vstd::prelude::*;
use crate::driver::{action_of, exit_ok, step, Action, DriverState, Event, Phase};

verus! {

/// The state of a fresh driver whose recipe is not among its dependents.
pub open spec fn initial_state() -> DriverState {
    DriverState { phase: Phase::Probe, deps: 0 }
}

/// The state after the first `i` of `events`, starting from `s0`.
pub open spec fn state_at(s0: DriverState, events: Seq<Event>, i: nat) -> DriverState
    decreases i,
{
    if i == 0 || i > events.len() {
        s0
    } else {
        step(state_at(s0, events, (i - 1) as nat), events[i - 1])
    }
}

/// The phase of a fresh driver after the first `i` of `events`.
pub open spec fn phase_at(events: Seq<Event>, i: nat) -> Phase {
    state_at(initial_state(), events, i).phase
}

/// A set of states that no step leaves.
pub open spec fn closed_under_step(p: spec_fn(DriverState) -> bool) -> bool {
    forall|s: DriverState, e: Event| p(s) ==> p(#[trigger] step(s, e))
}

proof fn lemma_stays(s0: DriverState, events: Seq<Event>, p: spec_fn(DriverState) -> bool, i: nat, j: nat)
    requires
        closed_under_step(p),
        i <= j <= events.len(),
        p(state_at(s0, events, i)),
    ensures
        p(state_at(s0, events, j)),
    decreases j - i,
{
    if i < j {
        let s = state_at(s0, events, i);
        assert(state_at(s0, events, i + 1) == step(s, events[i as int]));
        assert(p(step(s, events[i as int])));
        lemma_stays(s0, events, p, i + 1, j);
    }
}

/// Every reachable state has no more dependencies than a vector can hold.
proof fn lemma_deps_bounded(events: Seq<Event>, i: nat)
    requires
        i <= events.len(),
    ensures
        state_at(initial_state(), events, i).deps <= usize::MAX,
    decreases i,
{
    if i > 0 {
        lemma_deps_bounded(events, (i - 1) as nat);
    }
}

/// A recipe whose sentinel is found is not built again: after the first
/// report the driver only asks to finish, so it mounts nothing, spawns
/// nothing and fetches nothing.
pub proof fn lemma_complete_recipe_is_not_rebuilt(events: Seq<Event>)
    requires
        events.len() >= 1,
        events[0] == (Event::Probed { complete: true }),
    ensures
        forall|i: nat|
            1 <= i <= events.len() ==> #[trigger] phase_at(events, i) == Phase::Cached
                && action_of(phase_at(events, i)) == Action::Finish,
{
    let p = |s: DriverState| s.phase == Phase::Cached;
    assert(closed_under_step(p));
    assert(state_at(initial_state(), events, 1) == step(initial_state(), events[0])) by {
        reveal_with_fuel(state_at, 2);
    }
    assert forall|i: nat| 1 <= i <= events.len() implies #[trigger] phase_at(events, i)
        == Phase::Cached by {
        lemma_stays(initial_state(), events, p, 1, i);
    }
}

proof fn lemma_unfold(events: Seq<Event>, i: nat)
    requires
        1 <= i <= events.len(),
    ensures
        state_at(initial_state(), events, i) == step(
            state_at(initial_state(), events, (i - 1) as nat),
            events[i - 1],
        ),
{
}

/// Whether the driver has left the evaluation behind.
pub open spec fn past_evaluation(p: Phase) -> bool {
    !(p is Probe || p is Evaluate)
}

/// The inner builder runs only right after a mount that exited cleanly;
/// whatever the builder's exit, the next step unmounts; the unmount helper
/// runs only right after the builder, and at most once in a run. So a run
/// unmounts exactly once for each successful mount.
pub proof fn lemma_unmount_once_per_mount(events: Seq<Event>)
    ensures
        forall|i: nat|
            i <= events.len() && (#[trigger] phase_at(events, i)) is Build ==> i >= 1 && phase_at(
                events,
                (i - 1) as nat,
            ) is Mount && exit_ok(events[i - 1]),
        forall|i: nat|
            i < events.len() && (#[trigger] phase_at(events, i)) is Build ==> phase_at(
                events,
                i + 1,
            ) is Unmount,
        forall|i: nat|
            i <= events.len() && (#[trigger] phase_at(events, i)) is Unmount ==> i >= 1 && phase_at(
                events,
                (i - 1) as nat,
            ) is Build,
        forall|i: nat, j: nat|
            i < j <= events.len() && (#[trigger] phase_at(events, i)) is Unmount ==> !((
            #[trigger] phase_at(events, j)) is Unmount),
{
    assert forall|i: nat| i <= events.len() && (#[trigger] phase_at(events, i)) is Build implies i
        >= 1 && phase_at(events, (i - 1) as nat) is Mount && exit_ok(events[i - 1]) by {
        if i >= 1 {
            lemma_unfold(events, i);
        }
    }
    assert forall|i: nat| i < events.len() && (#[trigger] phase_at(events, i)) is Build implies phase_at(
        events,
        i + 1,
    ) is Unmount by {
        lemma_unfold(events, i + 1);
    }
    assert forall|i: nat| i <= events.len() && (#[trigger] phase_at(events, i)) is Unmount implies i
        >= 1 && phase_at(events, (i - 1) as nat) is Build by {
        if i >= 1 {
            lemma_unfold(events, i);
        }
    }
    let done = |s: DriverState| s.phase is Seal || s.phase is Built || s.phase is Cached
        || s.phase is Failed;
    assert(closed_under_step(done));
    assert forall|i: nat, j: nat|
        i < j <= events.len() && (#[trigger] phase_at(events, i)) is Unmount implies !((
        #[trigger] phase_at(events, j)) is Unmount) by {
        lemma_unfold(events, i + 1);
        lemma_stays(initial_state(), events, done, i + 1, j);
    }
}

/// Whether dependency `k` was reported built in some step before `i`,
/// answering a request for exactly that dependency.
pub open spec fn dependency_built_before(events: Seq<Event>, i: nat, k: nat) -> bool {
    exists|j: nat|
        j < i && #[trigger] phase_at(events, j) == Phase::Dependency(k as usize) && (events[j as int] is DependencyBuilt)
}

/// Whether the first `m` dependencies were each built before step `i`.
pub open spec fn dependencies_built(events: Seq<Event>, i: nat, m: nat) -> bool {
    forall|k: nat| k < m ==> #[trigger] dependency_built_before(events, i, k)
}

/// Whether the driver has gone past its dependencies, towards a build.
pub open spec fn past_dependencies(p: Phase) -> bool {
    p is Mount || p is Build || p is Unmount || p is Seal || p is Built
}

proof fn lemma_dependencies_built_upto(events: Seq<Event>, i: nat)
    requires
        i <= events.len(),
    ensures
        ({
            let s = state_at(initial_state(), events, i);
            &&& s.phase matches Phase::Dependency(k) ==> k < s.deps && dependencies_built(
                events,
                i,
                k as nat,
            )
            &&& past_dependencies(s.phase) ==> dependencies_built(events, i, s.deps)
        }),
    decreases i,
{
    if i > 0 {
        let i0 = (i - 1) as nat;
        lemma_dependencies_built_upto(events, i0);
        lemma_deps_bounded(events, i0);
        lemma_unfold(events, i);
        let s0 = state_at(initial_state(), events, i0);
        let s = state_at(initial_state(), events, i);
        assert forall|m: nat| dependencies_built(events, i0, m) implies dependencies_built(
            events,
            i,
            m,
        ) by {
            assert forall|k: nat| k < m implies #[trigger] dependency_built_before(events, i, k) by {
                assert(dependency_built_before(events, i0, k));
                let j = choose|j: nat|
                    j < i0 && #[trigger] phase_at(events, j) == Phase::Dependency(k as usize) && (
                    events[j as int] is DependencyBuilt);
                assert(j < i);
            }
        }
        if let Phase::Dependency(k) = s0.phase {
            if events[i0 as int] is DependencyBuilt {
                assert forall|x: nat| x < k + 1 implies #[trigger] dependency_built_before(
                    events,
                    i,
                    x,
                ) by {
                    if x < k {
                        assert(dependencies_built(events, i, k as nat));
                    } else {
                        assert(phase_at(events, i0) == Phase::Dependency(x as usize));
                    }
                }
            }
        }
    }
}

/// Dependencies are built one at a time, in the order the recipe lists
/// them, and every one of them is reported built before the inner builder
/// starts.
pub proof fn lemma_dependencies_in_order(events: Seq<Event>)
    ensures
        forall|i: nat, j: nat|
            i < j <= events.len() && (#[trigger] phase_at(events, i)) is Dependency && (
            #[trigger] phase_at(events, j)) is Dependency ==> phase_at(events, i)->Dependency_0 < phase_at(
                events,
                j,
            )->Dependency_0,
        forall|i: nat|
            i <= events.len() && (#[trigger] phase_at(events, i)) is Build ==> dependencies_built(
                events,
                i,
                state_at(initial_state(), events, i).deps,
            ),
{
    assert forall|i: nat, j: nat|
        i < j <= events.len() && (#[trigger] phase_at(events, i)) is Dependency && (
        #[trigger] phase_at(events, j)) is Dependency implies phase_at(events, i)->Dependency_0 < phase_at(
        events,
        j,
    )->Dependency_0 by {
        let k = phase_at(events, i)->Dependency_0;
        let beyond = |s: DriverState|
            s.deps <= usize::MAX && (past_dependencies(s.phase) || s.phase is Cached
                || s.phase is Failed || (s.phase matches Phase::Dependency(x) && x > k));
        assert(closed_under_step(beyond));
        lemma_deps_bounded(events, i);
        lemma_dependencies_built_upto(events, i);
        lemma_unfold(events, i + 1);
        lemma_stays(initial_state(), events, beyond, i + 1, j);
    }
    assert forall|i: nat|
        i <= events.len() && (#[trigger] phase_at(events, i)) is Build implies dependencies_built(
        events,
        i,
        state_at(initial_state(), events, i).deps,
    ) by {
        lemma_dependencies_built_upto(events, i);
    }
}

/// The sentinel is asked for only once the inner builder and then the
/// unmount helper both exited cleanly; a run that ends built wrote it; a
/// run that ends in failure never wrote it.
pub proof fn lemma_sentinel_only_after_success(events: Seq<Event>)
    ensures
        forall|i: nat|
            i <= events.len() && (#[trigger] phase_at(events, i)) is Seal ==> i >= 2 && phase_at(
                events,
                (i - 1) as nat,
            ) == Phase::Unmount(true) && exit_ok(events[i - 1]) && phase_at(
                events,
                (i - 2) as nat,
            ) is Build && exit_ok(events[i - 2]),
        forall|i: nat|
            i <= events.len() && (#[trigger] phase_at(events, i)) is Built ==> exists|j: nat|
                j < i && (#[trigger] phase_at(events, j)) is Seal && events[j as int] is Sealed,
        forall|i: nat, j: nat|
            j < i <= events.len() && (#[trigger] phase_at(events, i)) is Failed ==> !((
            #[trigger] phase_at(events, j)) is Seal && events[j as int] is Sealed),
{
    assert forall|i: nat| i <= events.len() && (#[trigger] phase_at(events, i)) is Seal implies i
        >= 2 && phase_at(events, (i - 1) as nat) == Phase::Unmount(true) && exit_ok(events[i - 1])
        && phase_at(events, (i - 2) as nat) is Build && exit_ok(events[i - 2]) by {
        if i >= 1 {
            lemma_unfold(events, i);
            if i >= 2 {
                lemma_unfold(events, (i - 1) as nat);
            }
        }
    }
    assert forall|i: nat| i <= events.len() && (#[trigger] phase_at(events, i)) is Built implies exists|
        j: nat,
    | j < i && (#[trigger] phase_at(events, j)) is Seal && events[j as int] is Sealed by {
        lemma_built_was_sealed(events, i);
    }
    let built = |s: DriverState| s.phase is Built;
    assert(closed_under_step(built));
    assert forall|i: nat, j: nat|
        j < i <= events.len() && (#[trigger] phase_at(events, i)) is Failed implies !((
        #[trigger] phase_at(events, j)) is Seal && events[j as int] is Sealed) by {
        if phase_at(events, j) is Seal && events[j as int] is Sealed {
            lemma_unfold(events, j + 1);
            lemma_stays(initial_state(), events, built, j + 1, i);
        }
    }
}

proof fn lemma_built_was_sealed(events: Seq<Event>, i: nat)
    requires
        i <= events.len(),
        phase_at(events, i) is Built,
    ensures
        exists|j: nat| j < i && (#[trigger] phase_at(events, j)) is Seal && events[j as int] is Sealed,
    decreases i,
{
    if i >= 1 {
        lemma_unfold(events, i);
        let i0 = (i - 1) as nat;
        if phase_at(events, i0) is Built {
            lemma_built_was_sealed(events, i0);
        } else {
            assert(phase_at(events, i0) is Seal && events[i0 as int] is Sealed);
        }
    }
}

/// A recipe without a `build` function fails as soon as its top level has
/// been evaluated, and no mount is ever asked for in that run.
pub proof fn lemma_missing_build_fails_before_mount(events: Seq<Event>, i: nat)
    requires
        i < events.len(),
        phase_at(events, i) is Evaluate,
        events[i as int] matches Event::Evaluated { has_build: false, .. },
    ensures
        forall|j: nat| i < j <= events.len() ==> (#[trigger] phase_at(events, j)) is Failed,
        forall|j: nat| j <= events.len() ==> !((#[trigger] phase_at(events, j)) is Mount),
{
    let failed = |s: DriverState| s.phase is Failed;
    assert(closed_under_step(failed));
    lemma_unfold(events, i + 1);
    assert forall|j: nat| i < j <= events.len() implies (#[trigger] phase_at(events, j)) is Failed by {
        lemma_stays(initial_state(), events, failed, i + 1, j);
    }
    let past = |s: DriverState| past_evaluation(s.phase);
    assert(closed_under_step(past));
    assert forall|j: nat| j <= events.len() implies !((#[trigger] phase_at(events, j)) is Mount) by {
        if j <= i && phase_at(events, j) is Mount {
            lemma_stays(initial_state(), events, past, j, i);
        }
    }
}

} // verus!
