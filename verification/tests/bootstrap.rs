use redo_env::bootstrap::{
    link_paths, make_search_path, needs_links_dir, search_candidates, sentinel_paths, unique_dirs,
    SENTINEL,
};

fn strings(items: &[&str]) -> Vec<String> {
    items.iter().map(|s| s.to_string()).collect()
}

#[test]
fn candidates_for_two_locations() {
    let got = search_candidates("/usr/bin/redo", "/opt/redo/bin/redo");
    assert_eq!(
        got,
        strings(&[
            "/usr/bin/../lib/redo",
            "/opt/redo/bin/../lib/redo",
            "/usr/bin/../redo",
            "/opt/redo/bin/../redo",
            "/usr/bin",
            "/opt/redo/bin",
        ])
    );
}

#[test]
fn candidates_skip_executable_without_directory() {
    assert_eq!(
        search_candidates("", "/opt/bin/redo"),
        strings(&["/opt/bin/../lib/redo", "/opt/bin/../redo", "/opt/bin"])
    );
    assert_eq!(search_candidates("", "/"), Vec::<String>::new());
}

#[test]
fn candidates_of_bare_name_are_relative() {
    assert_eq!(
        search_candidates("redo", "redo"),
        strings(&["../lib/redo", "../lib/redo", "../redo", "../redo", "", ""])
    );
}

#[test]
fn unique_keeps_first_of_equal_directories() {
    let cands = search_candidates("/usr/bin/redo", "/usr/bin/redo");
    assert_eq!(
        unique_dirs(&cands),
        strings(&["/usr/bin/../lib/redo", "/usr/bin/../redo", "/usr/bin"])
    );
}

#[test]
fn unique_compares_as_paths() {
    let dirs = strings(&["/usr//bin", "/usr/bin", "/usr/bin/", "/usr/lib", "/usr/./bin", "/usr/lib"]);
    assert_eq!(unique_dirs(&dirs), strings(&["/usr//bin", "/usr/lib"]));
}

#[test]
fn unique_keeps_distinct_directories_in_order() {
    let dirs = strings(&["c", "a", "b", "a", "c"]);
    assert_eq!(unique_dirs(&dirs), strings(&["c", "a", "b"]));
    assert_eq!(unique_dirs(&Vec::new()), Vec::<String>::new());
}

#[test]
fn sentinels_stand_in_each_candidate() {
    assert_eq!(SENTINEL, "redo-unlocked");
    assert_eq!(
        sentinel_paths(&strings(&["/usr/bin/../lib/redo", "/usr/bin"])),
        strings(&["/usr/bin/../lib/redo/redo-unlocked", "/usr/bin/redo-unlocked"])
    );
}

#[test]
fn links_are_needed_when_no_sentinel_exists() {
    assert!(needs_links_dir(&vec![false, false, false]));
    assert!(needs_links_dir(&Vec::new()));
    assert!(!needs_links_dir(&vec![false, true, false]));
    assert!(!needs_links_dir(&vec![true]));
    assert!(!needs_links_dir(&vec![false, false, true]));
}

#[test]
fn links_for_every_helper_command() {
    assert_eq!(
        link_paths("/tmp/x"),
        strings(&[
            "/tmp/x/redo",
            "/tmp/x/redo-always",
            "/tmp/x/redo-ifchange",
            "/tmp/x/redo-ifcreate",
            "/tmp/x/redo-log",
            "/tmp/x/redo-ood",
            "/tmp/x/redo-sources",
            "/tmp/x/redo-stamp",
            "/tmp/x/redo-targets",
            "/tmp/x/redo-unlocked",
            "/tmp/x/redo-whichdo",
        ])
    );
}

#[test]
fn search_path_starts_with_directories() {
    assert_eq!(
        make_search_path(&strings(&["/a", "/b"]), "/usr/bin:/bin"),
        "/a:/b:/usr/bin:/bin"
    );
}

#[test]
fn search_path_of_no_directories_is_old_path() {
    assert_eq!(make_search_path(&Vec::new(), "/usr/bin"), "/usr/bin");
    assert_eq!(make_search_path(&Vec::new(), ""), "");
}

#[test]
fn search_path_without_old_path_ends_in_colon() {
    assert_eq!(make_search_path(&strings(&["/a"]), ""), "/a:");
}
