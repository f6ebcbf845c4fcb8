use tuvix::layout::{
    complete_file, get_output, hash_dir, helper_path, join_path, merged_dir, output_dir, root_dir,
    store_dir,
};

#[test]
fn join_adds_one_separator() {
    assert_eq!(join_path("a", "b"), "a/b");
    assert_eq!(join_path("a/", "b"), "a/b");
    assert_eq!(join_path("/usr", "lib/x"), "/usr/lib/x");
}

#[test]
fn join_with_empty_parts() {
    assert_eq!(join_path("", "b"), "b");
    assert_eq!(join_path("a", ""), "a/");
}

#[test]
fn join_with_absolute_second_part() {
    assert_eq!(join_path("a", "/b"), "/b");
}

#[test]
fn root_dir_defaults_to_current_directory() {
    assert_eq!(root_dir(None), ".");
    assert_eq!(root_dir(Some("")), ".");
    assert_eq!(root_dir(Some("/srv/tuvix")), "/srv/tuvix");
}

#[test]
fn store_paths_under_root() {
    assert_eq!(store_dir("/srv/tuvix"), "/srv/tuvix/store");
    assert_eq!(store_dir("/srv/tuvix/"), "/srv/tuvix/store");
    assert_eq!(hash_dir("/srv/tuvix", "abcd"), "/srv/tuvix/store/abcd");
    assert_eq!(complete_file("/srv/tuvix/store/abcd"), "/srv/tuvix/store/abcd/.complete");
    assert_eq!(output_dir("/srv/tuvix/store/abcd"), "/srv/tuvix/store/abcd/output");
    assert_eq!(merged_dir("."), "./store/merged");
    assert_eq!(helper_path(".", "mount-all.py"), "./helpers/mount-all.py");
}

#[test]
fn output_inside_sandbox() {
    assert_eq!(get_output(), "/output");
}
