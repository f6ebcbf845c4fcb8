//! The outer build driver as a state machine. The caller performs each
//! action that `next_action` names (probe the sentinel, evaluate the recipe,
//! build a dependency, run a helper or the inner builder, write the
//! sentinel) and reports what happened through `handle`.

use vstd::prelude::*;
use crate::command::exited_ok;
use crate::error::BuildError;
use crate::layout::{helper_path, join_of, store_dir, store_dir_of};
use crate::recipe::{Builder, BuilderView, dependency_recipe_of};
use crate::text::views_of;

verus! {

/// Where a recipe's build stands.
#[derive(Debug, Clone, Copy, PartialEq, Eq, Structural)]
pub enum Phase {
    /// Check whether the sentinel already exists.
    Probe,
    /// Evaluate the recipe's top level outside the sandbox.
    Evaluate,
    /// Build the dependency with this index.
    Dependency(usize),
    /// Prepare the sandbox and run the mount helper.
    Mount,
    /// Run the inner builder.
    Build,
    /// Run the unmount helper; the flag says whether the builder succeeded.
    Unmount(bool),
    /// Write the sentinel.
    Seal,
    /// Finished: built in this run.
    Built,
    /// Finished: the sentinel was already there.
    Cached,
    /// Finished: the build failed.
    Failed,
}

/// What the caller is to do next.
#[derive(Debug, Clone, Copy, PartialEq, Eq, Structural)]
pub enum Action {
    ProbeComplete,
    Evaluate,
    BuildDependency(usize),
    Mount,
    RunBuilder,
    Unmount,
    Seal,
    Finish,
}

/// What the caller reports after performing an action.
pub enum Event {
    /// Whether the sentinel exists.
    Probed { complete: bool },
    /// The recipe's top level ran: whether it defines `build`, and its
    /// `dependencies` (empty when it has none).
    Evaluated { has_build: bool, dependencies: Vec<String> },
    /// The dependency was built; where its output directory lies.
    DependencyBuilt { output: String },
    /// A helper or the inner builder finished.
    Exited { code: Option<i32>, stdout: String, stderr: String },
    /// The sentinel was written.
    Sealed,
    /// The action could not be carried out.
    Failed { error: BuildError },
}

/// How a finished build ended well.
#[derive(Debug, Clone, Copy, PartialEq, Eq, Structural)]
pub enum Outcome {
    Built,
    Cached,
}

/// The part of the driver that decides its path: the phase and the number
/// of dependencies.
pub struct DriverState {
    pub phase: Phase,
    pub deps: nat,
}

/// Whether the build has finished.
pub open spec fn is_finished(p: Phase) -> bool {
    p is Built || p is Cached || p is Failed
}

/// The action each phase asks for.
pub open spec fn action_of(p: Phase) -> Action {
    match p {
        Phase::Probe => Action::ProbeComplete,
        Phase::Evaluate => Action::Evaluate,
        Phase::Dependency(k) => Action::BuildDependency(k),
        Phase::Mount => Action::Mount,
        Phase::Build => Action::RunBuilder,
        Phase::Unmount(_) => Action::Unmount,
        Phase::Seal => Action::Seal,
        _ => Action::Finish,
    }
}

/// Whether an event reports a clean exit.
pub open spec fn exit_ok(e: Event) -> bool {
    e matches Event::Exited { code, .. } && exited_ok(code)
}

/// The phase after dependency `k` of `n` was built.
pub open spec fn after_dependency(k: int, n: nat) -> Phase {
    if k + 1 < n {
        Phase::Dependency((k + 1) as usize)
    } else {
        Phase::Mount
    }
}

/// One step of the driver: the state after event `e` answers the action
/// that state `s` asked for.
pub open spec fn step(s: DriverState, e: Event) -> DriverState {
    match s.phase {
        Phase::Probe => DriverState {
            phase: match e {
                Event::Probed { complete } => if complete {
                    Phase::Cached
                } else {
                    Phase::Evaluate
                },
                _ => Phase::Failed,
            },
            deps: s.deps,
        },
        Phase::Evaluate => match e {
            Event::Evaluated { has_build, dependencies } => if !has_build {
                DriverState { phase: Phase::Failed, deps: s.deps }
            } else if dependencies.len() == 0 {
                DriverState { phase: Phase::Mount, deps: 0 }
            } else {
                DriverState { phase: Phase::Dependency(0), deps: dependencies.len() as nat }
            },
            _ => DriverState { phase: Phase::Failed, deps: s.deps },
        },
        Phase::Dependency(k) => DriverState {
            phase: match e {
                Event::DependencyBuilt { .. } => after_dependency(k as int, s.deps),
                _ => Phase::Failed,
            },
            deps: s.deps,
        },
        Phase::Mount => DriverState {
            phase: if exit_ok(e) {
                Phase::Build
            } else {
                Phase::Failed
            },
            deps: s.deps,
        },
        Phase::Build => DriverState { phase: Phase::Unmount(exit_ok(e)), deps: s.deps },
        Phase::Unmount(builder_ok) => DriverState {
            phase: if builder_ok && exit_ok(e) {
                Phase::Seal
            } else {
                Phase::Failed
            },
            deps: s.deps,
        },
        Phase::Seal => DriverState {
            phase: if e is Sealed {
                Phase::Built
            } else {
                Phase::Failed
            },
            deps: s.deps,
        },
        _ => s,
    }
}

/// The helper that sets up the overlay.
pub open spec fn mount_helper_of(root: Seq<char>) -> Seq<char> {
    join_of(join_of(root, "helpers"@), "mount-all.py"@)
}

/// The helper that tears the overlay down.
pub open spec fn unmount_helper_of(root: Seq<char>) -> Seq<char> {
    join_of(join_of(root, "helpers"@), "unmount-all.py"@)
}

/// Whether `err` is a failure of `command` that printed `e`'s output.
pub open spec fn subprocess_failure(err: BuildError, command: Seq<char>, e: Event) -> bool {
    e matches Event::Exited { stdout, stderr, .. } && err matches BuildError::Subprocess {
        command: c,
        stdout: o,
        stderr: x,
    } && c@ == command && o == stdout && x == stderr
}

/// The failure that event `e` reports in a phase whose action is to run
/// `command`: its output on a bad exit, else the reported error.
pub open spec fn run_failure(err: BuildError, command: Seq<char>, e: Event) -> bool {
    match e {
        Event::Exited { .. } => subprocess_failure(err, command, e),
        Event::Failed { error } => err == error,
        _ => err is UnexpectedEvent,
    }
}

/// The failure that event `e` reports in a phase with no command to run.
pub open spec fn step_failure(err: BuildError, e: Event) -> bool {
    match e {
        Event::Failed { error } => err == error,
        _ => err is UnexpectedEvent,
    }
}

/// A driver for one recipe.
pub struct Driver {
    builder: Builder,
    ancestors: Vec<String>,
    builder_program: String,
    phase: Phase,
    dependencies: Vec<String>,
    outputs: Vec<String>,
    pending: Option<BuildError>,
    error: Option<BuildError>,
}

/// What a `Driver` stands for.
pub struct DriverView {
    pub builder: BuilderView,
    pub ancestors: Seq<Seq<char>>,
    pub builder_program: Seq<char>,
    pub phase: Phase,
    pub dependencies: Seq<Seq<char>>,
    pub outputs: Seq<Seq<char>>,
    pub pending: Option<BuildError>,
    pub error: Option<BuildError>,
}

impl View for Driver {
    type V = DriverView;

    closed spec fn view(&self) -> DriverView {
        DriverView {
            builder: self.builder@,
            ancestors: views_of(self.ancestors@),
            builder_program: self.builder_program@,
            phase: self.phase,
            dependencies: views_of(self.dependencies@),
            outputs: views_of(self.outputs@),
            pending: self.pending,
            error: self.error,
        }
    }
}

impl DriverView {
    pub open spec fn state(self) -> DriverState {
        DriverState { phase: self.phase, deps: self.dependencies.len() }
    }

    /// The outputs gathered so far match the phase, and a failed build
    /// holds its error.
    pub open spec fn wf(self) -> bool {
        &&& self.builder.wf()
        &&& (self.phase is Probe || self.phase is Evaluate) ==> self.dependencies.len() == 0
            && self.outputs.len() == 0
        &&& self.phase matches Phase::Dependency(k) ==> k < self.dependencies.len()
            && self.outputs.len() == k
        &&& (self.phase is Mount || self.phase is Build || self.phase is Unmount || self.phase is Seal
            || self.phase is Built) ==> self.outputs.len() == self.dependencies.len()
        &&& self.phase == Phase::Unmount(false) ==> self.pending is Some
        &&& self.phase is Failed ==> self.error is Some
    }

    /// The recipe, its dependents and the builder program are those of `other`.
    pub open spec fn same_recipe(self, other: DriverView) -> bool {
        &&& self.builder == other.builder
        &&& self.ancestors == other.ancestors
        &&& self.builder_program == other.builder_program
    }
}

impl Driver {
    /// A driver for `builder`, whose dependents' fingerprints are
    /// `ancestors` (outermost first). It fails at once with a cycle when the
    /// recipe is among its own dependents.
    pub fn new(builder: Builder, ancestors: Vec<String>, builder_program: &str) -> (r: Driver)
        requires
            builder@.wf(),
        ensures
            r@.wf(),
            r@.builder == builder@,
            r@.ancestors == views_of(ancestors@),
            r@.builder_program == builder_program@,
            r@.dependencies.len() == 0,
            views_of(ancestors@).contains(builder@.fingerprint) ==> r@.phase is Failed && (
            r@.error matches Some(BuildError::DependencyCycle { cycle }) && views_of(cycle@)
                == views_of(ancestors@).push(builder@.fingerprint)),
            !views_of(ancestors@).contains(builder@.fingerprint) ==> r@.phase is Probe,
    {
        let fp = builder.fingerprint().to_owned();
        let mut seen = false;
        for i in 0..ancestors.len()
            invariant
                fp@ == builder@.fingerprint,
                seen <==> exists|j: int| 0 <= j < i && ancestors@[j]@ == fp@,
        {
            if ancestors[i] == fp {
                seen = true;
            }
        }
        proof {
            if views_of(ancestors@).contains(fp@) {
                let j = choose|j: int| 0 <= j < views_of(ancestors@).len() && views_of(ancestors@)[j] == fp@;
                assert(ancestors@[j]@ == fp@);
            }
            if seen {
                let j = choose|j: int| 0 <= j < ancestors@.len() && ancestors@[j]@ == fp@;
                assert(views_of(ancestors@)[j] == fp@);
            }
        }
        let ghost anc = views_of(ancestors@);
        if seen {
            let mut cycle = ancestors.clone();
            proof {
                assert(views_of(cycle@) == anc) by {
                    assert(views_of(cycle@) =~= anc);
                }
            }
            cycle.push(fp);
            assert(views_of(cycle@) =~= anc.push(builder@.fingerprint));
            Driver {
                builder,
                ancestors,
                builder_program: builder_program.to_owned(),
                phase: Phase::Failed,
                dependencies: Vec::new(),
                outputs: Vec::new(),
                pending: None,
                error: Some(BuildError::DependencyCycle { cycle }),
            }
        } else {
            Driver {
                builder,
                ancestors,
                builder_program: builder_program.to_owned(),
                phase: Phase::Probe,
                dependencies: Vec::new(),
                outputs: Vec::new(),
                pending: None,
                error: None,
            }
        }
    }

    /// The action the caller is to perform next.
    pub fn next_action(&self) -> (r: Action)
        ensures
            r == action_of(self@.phase),
    {
        match self.phase {
            Phase::Probe => Action::ProbeComplete,
            Phase::Evaluate => Action::Evaluate,
            Phase::Dependency(k) => Action::BuildDependency(k),
            Phase::Mount => Action::Mount,
            Phase::Build => Action::RunBuilder,
            Phase::Unmount(_) => Action::Unmount,
            Phase::Seal => Action::Seal,
            _ => Action::Finish,
        }
    }

    /// Takes in the report on the last action and moves to the next phase.
    pub fn handle(&mut self, event: Event)
        requires
            old(self)@.wf(),
        ensures
            final(self)@.wf(),
            final(self)@.same_recipe(old(self)@),
            final(self)@.state() == step(old(self)@.state(), event),
            old(self)@.phase is Evaluate ==> (event matches Event::Evaluated {
                has_build: true,
                dependencies,
            } ==> final(self)@.dependencies == views_of(dependencies@)),
            !(old(self)@.phase is Evaluate) ==> final(self)@.dependencies == old(self)@.dependencies,
            old(self)@.phase is Dependency ==> (event matches Event::DependencyBuilt { output }
                ==> final(self)@.outputs == old(self)@.outputs.push(output@)),
            !(old(self)@.phase is Dependency && event is DependencyBuilt) ==> final(self)@.outputs
                == old(self)@.outputs,
            old(self)@.phase is Build && !exit_ok(event) ==> (final(self)@.pending matches Some(err)
                && run_failure(err, old(self)@.builder_program, event)),
            final(self)@.phase is Failed && !(old(self)@.phase is Failed) ==> (final(self)@.error
                matches Some(err) && failure_of(old(self)@, event, err)),
            old(self)@.phase is Failed ==> final(self)@.error == old(self)@.error,
    {
        let ghost n = self@.dependencies.len();
        match self.phase {
            Phase::Probe => {
                match event {
                    Event::Probed { complete } => {
                        self.phase = if complete {
                            Phase::Cached
                        } else {
                            Phase::Evaluate
                        };
                    },
                    other => self.fail_with(other),
                }
            },
            Phase::Evaluate => {
                match event {
                    Event::Evaluated { has_build, dependencies } => {
                        if !has_build {
                            self.phase = Phase::Failed;
                            self.error = Some(BuildError::MissingBuildFunction);
                        } else {
                            let count = dependencies.len();
                            self.dependencies = dependencies;
                            self.phase = if count == 0 {
                                Phase::Mount
                            } else {
                                Phase::Dependency(0)
                            };
                        }
                    },
                    other => self.fail_with(other),
                }
            },
            Phase::Dependency(k) => {
                match event {
                    Event::DependencyBuilt { output } => {
                        assert(views_of(self.dependencies@).len() == self.dependencies@.len());
                        let count = self.dependencies.len();
                        self.outputs.push(output);
                        assert(views_of(self.outputs@) =~= old(self)@.outputs.push(output@));
                        self.phase = if k + 1 < count {
                            Phase::Dependency(k + 1)
                        } else {
                            Phase::Mount
                        };
                    },
                    other => self.fail_with(other),
                }
            },
            Phase::Mount => {
                let helper = helper_path(self.builder.root(), "mount-all.py");
                match event {
                    Event::Exited { code, stdout, stderr } => {
                        if code == Some(0i32) {
                            self.phase = Phase::Build;
                        } else {
                            self.phase = Phase::Failed;
                            self.error = Some(
                                BuildError::Subprocess { command: helper, stdout, stderr },
                            );
                        }
                    },
                    other => self.fail_with(other),
                }
            },
            Phase::Build => {
                let ok = match &event {
                    Event::Exited { code, .. } => *code == Some(0i32),
                    _ => false,
                };
                if !ok {
                    let program = self.builder_program.clone();
                    self.pending = Some(failure_from(event, program));
                }
                self.phase = Phase::Unmount(ok);
            },
            Phase::Unmount(builder_ok) => {
                if !builder_ok {
                    self.phase = Phase::Failed;
                    self.error = self.pending.take();
                } else {
                    let helper = helper_path(self.builder.root(), "unmount-all.py");
                    let ok = match &event {
                        Event::Exited { code, .. } => *code == Some(0i32),
                        _ => false,
                    };
                    if ok {
                        self.phase = Phase::Seal;
                    } else {
                        self.phase = Phase::Failed;
                        self.error = Some(failure_from(event, helper));
                    }
                }
            },
            Phase::Seal => {
                match event {
                    Event::Sealed => {
                        self.phase = Phase::Built;
                    },
                    other => self.fail_with(other),
                }
            },
            _ => {},
        }
    }

    /// Fails the build with the error that `event` reports.
    fn fail_with(&mut self, event: Event)
        requires
            old(self)@.wf(),
        ensures
            final(self)@ == (DriverView {
                phase: Phase::Failed,
                error: final(self)@.error,
                ..old(self)@
            }),
            final(self)@.error matches Some(err) && step_failure(err, event),
    {
        self.phase = Phase::Failed;
        self.error = Some(
            match event {
                Event::Failed { error } => error,
                _ => BuildError::UnexpectedEvent,
            },
        );
    }

    /// The dependents' fingerprints to hand to a dependency's driver: the
    /// ancestors followed by this recipe.
    pub fn dependency_ancestors(&self) -> (r: Vec<String>)
        ensures
            views_of(r@) == self@.ancestors.push(self@.builder.fingerprint),
    {
        let mut r = self.ancestors.clone();
        assert(views_of(r@) =~= self@.ancestors);
        r.push(self.builder.fingerprint().to_owned());
        assert(views_of(r@) =~= self@.ancestors.push(self@.builder.fingerprint));
        r
    }

    /// The recipe file of dependency `index`.
    pub fn dependency_recipe(&self, index: usize) -> (r: String)
        requires
            index < self@.dependencies.len(),
        ensures
            r@ == dependency_recipe_of(self@.builder.module_dir, self@.dependencies[index as int]),
    {
        self.builder.dependency_recipe(self.dependencies[index].as_str())
    }

    /// The mount helper's command line: the store, this recipe's store
    /// directory name, then each dependency's output directory in order.
    pub fn mount_command(&self) -> (r: Vec<String>)
        ensures
            views_of(r@) == seq![
                "sudo"@,
                "python"@,
                mount_helper_of(self@.builder.root),
                store_dir_of(self@.builder.root),
                self@.builder.fingerprint,
            ] + self@.outputs,
    {
        let mut r: Vec<String> = Vec::new();
        r.push("sudo".to_owned());
        r.push("python".to_owned());
        r.push(helper_path(self.builder.root(), "mount-all.py"));
        r.push(store_dir(self.builder.root()));
        r.push(self.builder.fingerprint().to_owned());
        let ghost head = views_of(r@);
        for i in 0..self.outputs.len()
            invariant
                views_of(r@) == head + views_of(self.outputs@).take(i as int),
        {
            let item = self.outputs[i].clone();
            let ghost before = views_of(r@);
            r.push(item);
            assert(views_of(r@) =~= before.push(item@));
            assert(views_of(self.outputs@).take(i + 1) =~= views_of(self.outputs@).take(
                i as int,
            ).push(self.outputs@[i as int]@));
            assert(views_of(r@) =~= head + views_of(self.outputs@).take(i + 1));
        }
        assert(views_of(self.outputs@).take(self.outputs@.len() as int) =~= self@.outputs);
        r
    }

    /// The inner builder's command line, run with elevated privileges.
    pub fn builder_command(&self) -> (r: Vec<String>)
        ensures
            views_of(r@) == seq!["sudo"@, "-E"@, self@.builder_program, self@.builder.filename],
    {
        let mut r: Vec<String> = Vec::new();
        r.push("sudo".to_owned());
        r.push("-E".to_owned());
        r.push(self.builder_program.clone());
        r.push(self.builder.filename().to_owned());
        assert(views_of(r@) =~= seq!["sudo"@, "-E"@, self@.builder_program, self@.builder.filename]);
        r
    }

    /// The unmount helper's command line.
    pub fn unmount_command(&self) -> (r: Vec<String>)
        ensures
            views_of(r@) == seq![
                "sudo"@,
                "python"@,
                unmount_helper_of(self@.builder.root),
                store_dir_of(self@.builder.root),
            ],
    {
        let mut r: Vec<String> = Vec::new();
        r.push("sudo".to_owned());
        r.push("python".to_owned());
        r.push(helper_path(self.builder.root(), "unmount-all.py"));
        r.push(store_dir(self.builder.root()));
        assert(views_of(r@) =~= seq![
            "sudo"@,
            "python"@,
            unmount_helper_of(self@.builder.root),
            store_dir_of(self@.builder.root),
        ]);
        r
    }

    /// The recipe this driver builds.
    pub fn builder(&self) -> (r: &Builder)
        ensures
            r@ == self@.builder,
    {
        &self.builder
    }

    /// How the finished build ended.
    pub fn finish(self) -> (r: Result<Outcome, BuildError>)
        requires
            self@.wf(),
            is_finished(self@.phase),
        ensures
            self@.phase is Built ==> r == Ok::<Outcome, BuildError>(Outcome::Built),
            self@.phase is Cached ==> r == Ok::<Outcome, BuildError>(Outcome::Cached),
            self@.phase is Failed ==> (r matches Err(err) && self@.error == Some(err)),
    {
        match self.phase {
            Phase::Built => Ok(Outcome::Built),
            Phase::Cached => Ok(Outcome::Cached),
            _ => match self.error {
                Some(err) => Err(err),
                None => Err(BuildError::UnexpectedEvent),
            },
        }
    }
}

/// The failure that `event` reports for a run of `command`.
fn failure_from(event: Event, command: String) -> (r: BuildError)
    ensures
        run_failure(r, command@, event),
{
    match event {
        Event::Exited { stdout, stderr, .. } => BuildError::Subprocess { command, stdout, stderr },
        Event::Failed { error } => error,
        _ => BuildError::UnexpectedEvent,
    }
}

/// The failure recorded when event `e` ends the build in state `v`.
pub open spec fn failure_of(v: DriverView, e: Event, err: BuildError) -> bool {
    match v.phase {
        Phase::Evaluate => if e matches Event::Evaluated { has_build: false, .. } {
            err is MissingBuildFunction
        } else {
            step_failure(err, e)
        },
        Phase::Mount => run_failure(err, mount_helper_of(v.builder.root), e),
        Phase::Unmount(builder_ok) => if builder_ok {
            run_failure(err, unmount_helper_of(v.builder.root), e)
        } else {
            v.pending == Some(err)
        },
        _ => step_failure(err, e),
    }
}

} // verus!
