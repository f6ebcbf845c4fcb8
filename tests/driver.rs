use sha2::Digest;
use tuvix::driver::{Action, Driver, Event, Outcome};
use tuvix::error::BuildError;
use tuvix::recipe::Builder;

fn sha256_hex(bytes: &[u8]) -> String {
    sha2::Sha256::digest(bytes).iter().map(|b| format!("{:02x}", b)).collect()
}

fn driver_for(name: &str, source: &str, ancestors: Vec<String>) -> Driver {
    let file = format!("/recipes/{name}.star");
    let builder = Builder::new(&file, "/recipes", source.as_bytes().to_vec(), "/srv/tuvix");
    Driver::new(builder, ancestors, "target/debug/build_in_chroot")
}

fn exited(code: i32) -> Event {
    Event::Exited { code: Some(code), stdout: String::new(), stderr: String::new() }
}

fn evaluated(deps: &[&str]) -> Event {
    Event::Evaluated { has_build: true, dependencies: deps.iter().map(|d| d.to_string()).collect() }
}

#[test]
fn trivial_build_is_sealed() {
    let source = "build = lambda ctx: \"ok\"\n";
    let mut d = driver_for("trivial", source, vec![]);
    let fp = sha256_hex(source.as_bytes());
    assert_eq!(d.builder().hash_dir(), format!("/srv/tuvix/store/{fp}"));
    assert_eq!(d.builder().complete_file(), format!("/srv/tuvix/store/{fp}/.complete"));
    assert_eq!(d.next_action(), Action::ProbeComplete);
    d.handle(Event::Probed { complete: false });
    assert_eq!(d.next_action(), Action::Evaluate);
    d.handle(evaluated(&[]));
    assert_eq!(d.next_action(), Action::Mount);
    assert_eq!(
        d.mount_command(),
        vec!["sudo", "python", "/srv/tuvix/helpers/mount-all.py", "/srv/tuvix/store", fp.as_str()]
    );
    d.handle(exited(0));
    assert_eq!(d.next_action(), Action::RunBuilder);
    assert_eq!(
        d.builder_command(),
        vec!["sudo", "-E", "target/debug/build_in_chroot", "/recipes/trivial.star"]
    );
    d.handle(exited(0));
    assert_eq!(d.next_action(), Action::Unmount);
    assert_eq!(
        d.unmount_command(),
        vec!["sudo", "python", "/srv/tuvix/helpers/unmount-all.py", "/srv/tuvix/store"]
    );
    d.handle(exited(0));
    assert_eq!(d.next_action(), Action::Seal);
    d.handle(Event::Sealed);
    assert_eq!(d.next_action(), Action::Finish);
    assert_eq!(d.finish(), Ok(Outcome::Built));
}

#[test]
fn hash_mismatch_fails_without_sentinel() {
    let mut d = driver_for("bad", "download(\"http://x/f\", \"00\")\n", vec![]);
    d.handle(Event::Probed { complete: false });
    let error = BuildError::HashMismatch {
        url: "http://x/f".to_string(),
        expected: "00".repeat(32),
        computed: sha256_hex(b"served"),
    };
    d.handle(Event::Failed { error: error.clone() });
    assert_eq!(d.next_action(), Action::Finish);
    assert_eq!(d.finish(), Err(error));
}

#[test]
fn dependency_chain_builds_dependency_first() {
    let mut a = driver_for("a", "dependencies = [\"b\"]\nbuild = lambda ctx: None\n", vec![]);
    let fp_a = a.builder().fingerprint().to_string();
    a.handle(Event::Probed { complete: false });
    a.handle(evaluated(&["b"]));
    assert_eq!(a.next_action(), Action::BuildDependency(0));
    assert_eq!(a.dependency_recipe(0), "/recipes/b.star");
    assert_eq!(a.dependency_ancestors(), vec![fp_a.clone()]);

    let mut b = driver_for("b", "build = lambda ctx: None\n", a.dependency_ancestors());
    b.handle(Event::Probed { complete: false });
    b.handle(evaluated(&[]));
    b.handle(exited(0));
    b.handle(exited(0));
    b.handle(exited(0));
    assert_eq!(b.next_action(), Action::Seal);
    let b_output = b.builder().output_dir();
    b.handle(Event::Sealed);
    assert_eq!(b.finish(), Ok(Outcome::Built));

    a.handle(Event::DependencyBuilt { output: b_output.clone() });
    assert_eq!(a.next_action(), Action::Mount);
    assert_eq!(a.mount_command().last(), Some(&b_output));
    assert_eq!(a.mount_command().len(), 6);
    a.handle(exited(0));
    assert_eq!(a.next_action(), Action::RunBuilder);
    a.handle(exited(0));
    a.handle(exited(0));
    assert_eq!(a.next_action(), Action::Seal);
    a.handle(Event::Sealed);
    assert_eq!(a.finish(), Ok(Outcome::Built));
}

#[test]
fn dependencies_requested_in_listed_order() {
    let mut d = driver_for("multi", "dependencies = [\"x\", \"y\", \"z\"]\n", vec![]);
    d.handle(Event::Probed { complete: false });
    d.handle(evaluated(&["x", "y", "z"]));
    for (i, name) in ["x", "y", "z"].iter().enumerate() {
        assert_eq!(d.next_action(), Action::BuildDependency(i));
        assert_eq!(d.dependency_recipe(i), format!("/recipes/{name}.star"));
        d.handle(Event::DependencyBuilt { output: format!("/out/{name}") });
    }
    assert_eq!(d.next_action(), Action::Mount);
    let cmd = d.mount_command();
    assert_eq!(&cmd[5..], &["/out/x", "/out/y", "/out/z"]);
}

#[test]
fn rerun_of_built_recipe_does_nothing() {
    let mut d = driver_for("a", "dependencies = [\"b\"]\nbuild = lambda ctx: None\n", vec![]);
    assert_eq!(d.next_action(), Action::ProbeComplete);
    d.handle(Event::Probed { complete: true });
    assert_eq!(d.next_action(), Action::Finish);
    assert_eq!(d.finish(), Ok(Outcome::Cached));
}

#[test]
fn failed_inner_builder_still_unmounts() {
    let mut d = driver_for("fails", "build = lambda ctx: run(\"false\")\n", vec![]);
    d.handle(Event::Probed { complete: false });
    d.handle(evaluated(&[]));
    d.handle(exited(0));
    assert_eq!(d.next_action(), Action::RunBuilder);
    d.handle(Event::Exited { code: Some(1), stdout: "o".to_string(), stderr: "e".to_string() });
    assert_eq!(d.next_action(), Action::Unmount);
    d.handle(exited(0));
    assert_eq!(d.next_action(), Action::Finish);
    assert_eq!(
        d.finish(),
        Err(BuildError::Subprocess {
            command: "target/debug/build_in_chroot".to_string(),
            stdout: "o".to_string(),
            stderr: "e".to_string(),
        })
    );
}

#[test]
fn builder_spawn_failure_still_unmounts() {
    let mut d = driver_for("nospawn", "build = lambda ctx: None\n", vec![]);
    d.handle(Event::Probed { complete: false });
    d.handle(evaluated(&[]));
    d.handle(exited(0));
    let error = BuildError::RecipeRuntime {
        function: "spawn".to_string(),
        arguments: vec![],
        message: "no such file".to_string(),
    };
    d.handle(Event::Failed { error: error.clone() });
    assert_eq!(d.next_action(), Action::Unmount);
    d.handle(exited(0));
    assert_eq!(d.finish(), Err(error));
}

#[test]
fn unmount_failure_after_good_build_is_reported() {
    let mut d = driver_for("umount", "build = lambda ctx: None\n", vec![]);
    d.handle(Event::Probed { complete: false });
    d.handle(evaluated(&[]));
    d.handle(exited(0));
    d.handle(exited(0));
    d.handle(Event::Exited { code: Some(2), stdout: String::new(), stderr: "busy".to_string() });
    assert_eq!(d.next_action(), Action::Finish);
    assert_eq!(
        d.finish(),
        Err(BuildError::Subprocess {
            command: "/srv/tuvix/helpers/unmount-all.py".to_string(),
            stdout: String::new(),
            stderr: "busy".to_string(),
        })
    );
}

#[test]
fn failed_mount_skips_builder_and_unmount() {
    let mut d = driver_for("nomount", "build = lambda ctx: None\n", vec![]);
    d.handle(Event::Probed { complete: false });
    d.handle(evaluated(&[]));
    d.handle(exited(1));
    assert_eq!(d.next_action(), Action::Finish);
    assert!(matches!(d.finish(), Err(BuildError::Subprocess { .. })));
}

#[test]
fn missing_build_function_fails_before_mount() {
    let mut d = driver_for("nobuild", "x = 1\n", vec![]);
    d.handle(Event::Probed { complete: false });
    d.handle(Event::Evaluated { has_build: false, dependencies: vec![] });
    assert_eq!(d.next_action(), Action::Finish);
    assert_eq!(d.finish(), Err(BuildError::MissingBuildFunction));
}

#[test]
fn dependency_cycle_is_detected() {
    let source = "dependencies = [\"a\"]\nbuild = lambda ctx: None\n";
    let fp = sha256_hex(source.as_bytes());
    let d = driver_for("a", source, vec!["1111".to_string(), fp.clone()]);
    assert_eq!(d.next_action(), Action::Finish);
    assert_eq!(
        d.finish(),
        Err(BuildError::DependencyCycle { cycle: vec!["1111".to_string(), fp.clone(), fp] })
    );
}

#[test]
fn failed_dependency_fails_dependent() {
    let mut d = driver_for("a", "dependencies = [\"b\"]\n", vec![]);
    d.handle(Event::Probed { complete: false });
    d.handle(evaluated(&["b"]));
    d.handle(Event::Failed { error: BuildError::MissingBuildFunction });
    assert_eq!(d.next_action(), Action::Finish);
    assert_eq!(d.finish(), Err(BuildError::MissingBuildFunction));
}

#[test]
fn unexpected_report_fails_build() {
    let mut d = driver_for("odd", "build = lambda ctx: None\n", vec![]);
    d.handle(Event::Sealed);
    assert_eq!(d.finish(), Err(BuildError::UnexpectedEvent));
}
