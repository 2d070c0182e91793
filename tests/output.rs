use fencecat::filters::{
    build_ext_filters, ext_allowed, normalize_ext, normalize_ext_list, normalize_trimmed,
};
use fencecat::ordering::{order_files, FileKey};
use fencecat::listing::{choose_fence, emit_dir_listing, emit_file_block, has_nul};
use fencecat::patterns::{path_selected, selection_passes, Filters, PathPatterns};

fn strings(v: &[&str]) -> Vec<String> {
    v.iter().map(|s| s.to_string()).collect()
}

#[test]
fn fence_is_three_ticks_for_plain_text() {
    assert_eq!(choose_fence("fn main() {}\n"), "```");
    assert_eq!(choose_fence(""), "```");
}

#[test]
fn fence_grows_past_runs_in_content() {
    assert_eq!(choose_fence("a ``` b"), "````");
    assert_eq!(choose_fence("`````"), "``````");
}

#[test]
fn fence_falls_back_to_twelve_ticks() {
    let content = "`".repeat(10);
    assert_eq!(choose_fence(&content), "`".repeat(12));
}

#[test]
fn listing_wraps_paths_in_a_block() {
    let rels = strings(&["a.rs", "src/b.rs"]);
    assert_eq!(emit_dir_listing(&rels), "```\na.rs\nsrc/b.rs\n```\n\n");
}

#[test]
fn listing_of_nothing_is_an_empty_block() {
    assert_eq!(emit_dir_listing(&Vec::new()), "```\n```\n\n");
}

#[test]
fn nul_marks_binary() {
    assert!(has_nul(&[1, 2, 0, 3]));
    assert!(!has_nul(b"text"));
    assert!(!has_nul(&[]));
}

#[test]
fn ext_is_trimmed_undotted_and_lowered() {
    assert_eq!(normalize_ext(" ..RS "), "rs");
    assert_eq!(normalize_ext("Toml"), "toml");
    assert_eq!(normalize_ext(" . "), "");
}

#[test]
fn ext_list_drops_empty_and_repeated() {
    let list = strings(&["rs", ".RS", " ", "md", ".", "md"]);
    assert_eq!(normalize_ext_list(&list), strings(&["rs", "md"]));
}

#[test]
fn ext_filters_are_built_where_given() {
    let (allow, deny) = build_ext_filters(&Some(strings(&[".Py"])), &None);
    assert_eq!(allow, Some(strings(&["py"])));
    assert_eq!(deny, None);
}

#[test]
fn ext_allow_and_deny() {
    let allow = Some(strings(&["rs", "md"]));
    let deny = Some(strings(&["md"]));
    assert!(ext_allowed(Some("RS"), &allow, &None));
    assert!(!ext_allowed(Some("toml"), &allow, &None));
    assert!(!ext_allowed(None, &allow, &None));
    assert!(!ext_allowed(Some("md"), &allow, &deny));
    assert!(ext_allowed(None, &None, &deny));
    assert!(ext_allowed(Some("rs"), &None, &None));
}

#[test]
fn invalid_pattern_is_refused() {
    assert!(PathPatterns::new(strings(&["("])).is_err());
    assert!(PathPatterns::new(strings(&["^src/", "\\.rs$"])).is_ok());
}

#[test]
fn patterns_match_path_relative_to_cwd() {
    let allow = PathPatterns::new(strings(&["^src/"])).unwrap();
    let deny = PathPatterns::new(strings(&["test"])).unwrap();
    assert!(path_selected("./src/lib.rs", Some(&allow), None));
    assert!(!path_selected("./docs/a.md", Some(&allow), None));
    assert!(!path_selected("./src/test.rs", Some(&allow), Some(&deny)));
    assert!(path_selected("anything", None, None));
}

#[test]
fn selection_from_hits() {
    assert!(selection_passes(None, None));
    assert!(selection_passes(Some(true), Some(false)));
    assert!(!selection_passes(Some(false), None));
    assert!(!selection_passes(None, Some(true)));
}

#[test]
fn filters_check_extension_then_path() {
    let f = Filters {
        ext_allow: Some(strings(&["rs"])),
        ext_deny: None,
        re_allow: None,
        re_deny: Some(PathPatterns::new(strings(&["^target/"])).unwrap()),
    };
    assert!(f.passes("./src/a.rs", Some("rs")));
    assert!(!f.passes("./src/a.md", Some("md")));
    assert!(!f.passes("./target/a.rs", Some("rs")));
}

#[test]
fn file_block_adds_missing_newline() {
    assert_eq!(
        emit_file_block("src/a.rs", "fn a() {}"),
        "```src/a.rs\nfn a() {}\n\n```\n\n"
    );
}

#[test]
fn file_block_keeps_final_newline_and_widens_fence() {
    assert_eq!(
        emit_file_block("b.md", "```\nx\n```\n"),
        "````b.md\n```\nx\n```\n\n````\n\n"
    );
}

fn key(size: u64, rel: &str) -> FileKey {
    FileKey { size, rel: rel.to_string() }
}

#[test]
fn files_ordered_by_path() {
    let keys = vec![key(5, "src/b.rs"), key(9, "Cargo.toml"), key(1, "src/a.rs"), key(3, "src")];
    assert_eq!(order_files(&keys, false), vec![1, 3, 2, 0]);
}

#[test]
fn files_ordered_biggest_first_then_path() {
    let keys = vec![key(5, "b"), key(9, "z"), key(5, "a"), key(1, "c")];
    assert_eq!(order_files(&keys, true), vec![1, 2, 0, 3]);
}

#[test]
fn ordering_of_no_files() {
    assert!(order_files(&Vec::new(), true).is_empty());
}

#[test]
fn trimmed_ext_loses_dots_and_capitals() {
    assert_eq!(normalize_trimmed("..TxT"), "txt");
    assert_eq!(normalize_trimmed(" rs"), " rs");
}
