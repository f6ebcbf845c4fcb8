use tuvix::chroot::{dependency_paths, require_build_function};
use tuvix::error::{BuildError, SandboxStep};
use tuvix::recipe::Builder;
use tuvix::sandbox::{sandbox_plan, SandboxProbe};

fn steps(probe: SandboxProbe) -> Vec<(SandboxStep, String, String)> {
    sandbox_plan("/r", "/r/store/h", probe)
        .into_iter()
        .map(|a| (a.step, a.source, a.target))
        .collect()
}

fn s(step: SandboxStep, source: &str, target: &str) -> (SandboxStep, String, String) {
    (step, source.to_string(), target.to_string())
}

#[test]
fn fresh_sandbox_plan() {
    let probe = SandboxProbe {
        bin: false,
        private_bin: false,
        dev: false,
        proc_dir: false,
        tmp: false,
        dev_null: false,
        proc_version: false,
    };
    assert_eq!(
        steps(probe),
        vec![
            s(SandboxStep::MkDir, "", "/r/store/h/bin"),
            s(SandboxStep::MkDir, "", "/r/store/h/.bin"),
            s(SandboxStep::MkDir, "", "/r/store/h/dev"),
            s(SandboxStep::MkDir, "", "/r/store/h/proc"),
            s(SandboxStep::MkDir, "", "/r/store/h/tmp"),
            s(SandboxStep::CopyHelper, "/r/helpers/bash", "/r/store/h/bin/sh"),
            s(SandboxStep::CopyHelper, "/r/helpers/strace", "/r/store/h/.bin/strace"),
            s(SandboxStep::BindMount, "/dev", "/r/store/h/dev"),
            s(SandboxStep::BindMount, "/proc", "/r/store/h/proc"),
        ]
    );
}

#[test]
fn prepared_sandbox_only_copies_helpers() {
    let probe = SandboxProbe {
        bin: true,
        private_bin: true,
        dev: true,
        proc_dir: true,
        tmp: true,
        dev_null: true,
        proc_version: true,
    };
    assert_eq!(
        steps(probe),
        vec![
            s(SandboxStep::CopyHelper, "/r/helpers/bash", "/r/store/h/bin/sh"),
            s(SandboxStep::CopyHelper, "/r/helpers/strace", "/r/store/h/.bin/strace"),
        ]
    );
}

#[test]
fn empty_dependencies_give_empty_paths() {
    assert!(dependency_paths(&vec![]).is_empty());
}

#[test]
fn dependency_paths_follow_list() {
    let deps = vec!["ncurses".to_string(), "zlib".to_string()];
    assert_eq!(
        dependency_paths(&deps),
        vec![("ncurses".to_string(), "/".to_string()), ("zlib".to_string(), "/".to_string())]
    );
}

#[test]
fn build_function_is_required() {
    assert_eq!(require_build_function(true), Ok(()));
    assert_eq!(require_build_function(false), Err(BuildError::MissingBuildFunction));
}

#[test]
fn builder_records_recipe() {
    let b = Builder::new("/recipes/zsh.star", "/recipes", b"abc".to_vec(), ".");
    assert_eq!(b.filename(), "/recipes/zsh.star");
    assert_eq!(b.module_dir(), "/recipes");
    assert_eq!(b.content(), b"abc");
    assert_eq!(b.root(), ".");
    assert_eq!(
        b.fingerprint(),
        "ba7816bf8f01cfea414140de5dae2223b00361a396177a9cb410ff61f20015ad"
    );
    assert_eq!(
        b.hash_dir(),
        "./store/ba7816bf8f01cfea414140de5dae2223b00361a396177a9cb410ff61f20015ad"
    );
    assert_eq!(b.dependency_recipe("ncurses"), "/recipes/ncurses.star");
}
