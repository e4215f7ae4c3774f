use redo_env::error::{RedoError, TargetOrigin};
use redo_env::paths::{is_absolute, join};
use redo_env::resolver::{
    ancestor_chain, find_common_base, marker_paths, resolve_base, target_dirs, DEFAULT_TARGET, MARKER,
};

fn strings(items: &[&str]) -> Vec<String> {
    items.iter().map(|s| s.to_string()).collect()
}

#[test]
fn join_puts_one_separator_between() {
    assert_eq!(join("/proj", "a/b"), "/proj/a/b");
    assert_eq!(join("/proj/", "a/b"), "/proj/a/b");
    assert_eq!(join("/", "a"), "/a");
    assert_eq!(join("rel", ".."), "rel/..");
}

#[test]
fn join_with_empty_parts() {
    assert_eq!(join("", "a"), "a");
    assert_eq!(join("/proj", ""), "/proj/");
    assert_eq!(join("", ""), "");
}

#[test]
fn join_with_rooted_path_replaces() {
    assert_eq!(join("/proj", "/etc/x"), "/etc/x");
    assert_eq!(join("", "/"), "/");
}

#[test]
fn join_agrees_with_the_standard_library() {
    let bases = ["", "/", "/proj", "/proj/", "a", "a/", "a//", "é"];
    let rels = ["", "/", "x", "x/y", "/x", "..", ".", "ü/ö"];
    for b in bases {
        for r in rels {
            let want = std::path::Path::new(b).join(r);
            assert_eq!(join(b, r), want.to_str().unwrap(), "{:?} {:?}", b, r);
        }
    }
}

#[test]
fn absolute_paths_start_at_the_root() {
    assert!(is_absolute("/"));
    assert!(is_absolute("/a/b"));
    assert!(!is_absolute(""));
    assert!(!is_absolute("a/b"));
    assert!(!is_absolute("./a"));
    assert!(!is_absolute("é/"));
}

#[test]
fn names_of_marker_and_default_target() {
    assert_eq!(MARKER, ".redo");
    assert_eq!(DEFAULT_TARGET, "all");
}

#[test]
fn target_dirs_are_parents_seen_from_cwd() {
    let dirs = target_dirs(&strings(&["a/b/out", "a/c/out"]), "/proj").unwrap();
    assert_eq!(dirs, strings(&["/proj/a/b", "/proj/a/c"]));
}

#[test]
fn target_in_cwd_has_cwd_as_directory() {
    let dirs = target_dirs(&strings(&["out"]), "/proj").unwrap();
    assert_eq!(dirs, strings(&["/proj/"]));
}

#[test]
fn rooted_target_keeps_its_own_directory() {
    let dirs = target_dirs(&strings(&["/srv/x/out", "y/out"]), "/proj").unwrap();
    assert_eq!(dirs, strings(&["/srv/x", "/proj/y"]));
}

#[test]
fn no_targets_means_the_default_target() {
    let dirs = target_dirs(&Vec::new(), "/proj").unwrap();
    assert_eq!(dirs, target_dirs(&strings(&["all"]), "/proj").unwrap());
    assert_eq!(dirs, strings(&["/proj/"]));
}

#[test]
fn target_without_parent_is_invalid() {
    assert_eq!(
        target_dirs(&strings(&[""]), "/proj"),
        Err(RedoError::InvalidTarget("".to_string(), TargetOrigin::Named))
    );
    assert_eq!(
        target_dirs(&strings(&["/"]), "/proj"),
        Err(RedoError::InvalidTarget("/".to_string(), TargetOrigin::Named))
    );
}

#[test]
fn first_target_without_parent_is_reported() {
    assert_eq!(
        target_dirs(&strings(&["a/out", "/", "b/out", ""]), "/proj"),
        Err(RedoError::InvalidTarget("/".to_string(), TargetOrigin::Named))
    );
}

#[test]
fn base_of_two_targets_under_cwd_is_cwd() {
    let base = find_common_base(&strings(&["a/b/out", "a/c/out"]), "/proj").unwrap();
    assert_eq!(base, "/proj");
    assert_eq!(resolve_base(&base, &vec![false; 2]), "/proj");
}

#[test]
fn common_ancestor_of_target_dirs_alone() {
    let base = find_common_base(&strings(&["b/out", "c/out"]), "/proj/a").unwrap();
    assert_eq!(base, "/proj/a");
    let base = find_common_base(&strings(&["/proj/a/b/out", "/proj/a/c/out"]), "/proj/a/b").unwrap();
    assert_eq!(base, "/proj/a");
}

#[test]
fn base_reaches_above_cwd_for_targets_elsewhere() {
    let base = find_common_base(&strings(&["/srv/data/x/out"]), "/srv/work").unwrap();
    assert_eq!(base, "/srv");
    let base = find_common_base(&strings(&["/etc/out"]), "/srv/work").unwrap();
    assert_eq!(base, "/");
}

#[test]
fn base_of_no_targets_is_cwd() {
    assert_eq!(find_common_base(&Vec::new(), "/proj/sub").unwrap(), "/proj/sub");
}

#[test]
fn base_fails_on_invalid_target() {
    assert_eq!(
        find_common_base(&strings(&["a/out", ""]), "/proj"),
        Err(RedoError::InvalidTarget("".to_string(), TargetOrigin::Named))
    );
}

#[test]
fn base_fails_without_common_ancestor() {
    assert_eq!(
        find_common_base(&strings(&["/abs/out"]), "rel/dir"),
        Err(RedoError::NoCommonBase)
    );
}

#[test]
fn chain_goes_up_to_the_root() {
    assert_eq!(ancestor_chain("/proj/a/b"), strings(&["/proj/a/b", "/proj/a", "/proj", "/"]));
    assert_eq!(ancestor_chain("/"), strings(&["/"]));
}

#[test]
fn chain_of_relative_directory_ends_empty() {
    assert_eq!(ancestor_chain("a/b"), strings(&["a/b", "a", ""]));
    assert_eq!(ancestor_chain(""), strings(&[""]));
}

#[test]
fn markers_stand_in_each_directory() {
    let chain = ancestor_chain("/proj/a");
    assert_eq!(marker_paths(&chain), strings(&["/proj/a/.redo", "/proj/.redo", "/.redo"]));
}

#[test]
fn base_without_marker_is_common_ancestor() {
    assert_eq!(resolve_base("/proj/a", &vec![false, false, false]), "/proj/a");
    assert_eq!(resolve_base("/proj/a", &Vec::new()), "/proj/a");
}

#[test]
fn base_is_nearest_marked_directory() {
    assert_eq!(resolve_base("/proj/a", &vec![true, false, false]), "/proj/a");
    assert_eq!(resolve_base("/proj/a", &vec![false, true, false]), "/proj");
    assert_eq!(resolve_base("/proj/a", &vec![false, false, true]), "/");
    assert_eq!(resolve_base("/proj/a", &vec![false, true, true]), "/proj");
    assert_eq!(resolve_base("/proj/a", &vec![true, true, true]), "/proj/a");
}

#[test]
fn marks_beyond_the_chain_are_ignored() {
    assert_eq!(resolve_base("/proj", &vec![false, false, true, true]), "/proj");
    assert_eq!(resolve_base("/proj", &vec![false]), "/proj");
}
