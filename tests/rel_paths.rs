use std::path::{Path, PathBuf};

use fencecat::{rel_string, shown_path};

#[test]
fn rel_from_dot_strips_prefix_and_normalizes() {
    let p = Path::new("./src/lib.rs");
    assert_eq!(rel_string(".", p.to_str().unwrap()), "src/lib.rs");
}

#[test]
fn rel_under_root_normalizes_backslashes() {
    let root = PathBuf::from("repo");
    let mut path = root.clone();
    path.push("src");
    path.push("mod.rs");
    assert_eq!(
        rel_string(root.to_str().unwrap(), path.to_str().unwrap()),
        "src/mod.rs"
    );
}

#[test]
fn rel_from_dot_keeps_paths_without_prefix() {
    assert_eq!(rel_string(".", "src/main.rs"), "src/main.rs");
}

#[test]
fn rel_from_dot_turns_backslashes_into_slashes() {
    assert_eq!(rel_string(".", "./src\\win\\a.rs"), "src/win/a.rs");
}

#[test]
fn rel_outside_root_keeps_whole_path() {
    assert_eq!(rel_string("other", "repo/src/a\\b.rs"), "repo/src/a/b.rs");
}

#[test]
fn rel_root_compares_whole_components() {
    assert_eq!(rel_string("rep", "repo/a.rs"), "repo/a.rs");
}

#[test]
fn rel_dot_with_suffix_is_not_dot() {
    assert_eq!(rel_string("./", "./a.rs"), "a.rs");
    assert_eq!(rel_string("..", "../a.rs"), "a.rs");
}

#[test]
fn shown_path_uses_rest_where_given() {
    assert_eq!(shown_path("a\\b\\c.rs", Some("b\\c.rs")), "b/c.rs");
    assert_eq!(shown_path("a\\b\\c.rs", None), "a/b/c.rs");
}
