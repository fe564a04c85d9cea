use forge_tests::paths::{choose_root, manifest_root};

#[test]
fn manifest_in_forge_dir_gives_parent() {
    assert_eq!(manifest_root("/home/dev/project/forge"), "/home/dev/project");
}

#[test]
fn manifest_in_forge_dir_with_trailing_slash_gives_parent() {
    assert_eq!(manifest_root("/home/dev/project/forge/"), "/home/dev/project");
}

#[test]
fn manifest_elsewhere_is_kept() {
    assert_eq!(manifest_root("/home/dev/project/forge_tests"), "/home/dev/project/forge_tests");
}

#[test]
fn forge_must_be_a_whole_component() {
    assert_eq!(manifest_root("/home/dev/reforge"), "/home/dev/reforge");
    assert_eq!(manifest_root("/home/dev/forge-std"), "/home/dev/forge-std");
}

#[test]
fn relative_forge_dir_gives_empty_parent() {
    assert_eq!(manifest_root("forge"), "");
}

#[test]
fn forge_earlier_in_path_is_kept() {
    assert_eq!(manifest_root("/srv/forge/tests"), "/srv/forge/tests");
}

#[test]
fn choose_root_takes_parent_only_in_forge_dir() {
    assert_eq!(choose_root("/a/forge", true, Some("/a".to_string())), "/a");
    assert_eq!(choose_root("/a/forge", true, None), "/a/forge");
    assert_eq!(choose_root("/a/b", false, Some("/a".to_string())), "/a/b");
    assert_eq!(choose_root("/a/b", false, None), "/a/b");
}
