use pls::config::{EntryConst, NlinkStyles};
use pls::enums::{SizeUnit, Typ};
use pls::gitx::{
    dir_children_cell, dir_has_direct_change, file_status_cell, format_git_status,
    strip_prefix_str, CONFLICTED, IGNORED, INDEX_MODIFIED, INDEX_NEW, WT_DELETED, WT_MODIFIED,
    WT_NEW,
};
use pls::node::Node;

fn entry_const() -> EntryConst {
    EntryConst {
        dev_style: "dev".to_string(),
        ino_style: "ino".to_string(),
        blocks_style: "blk".to_string(),
        size_style: "siz".to_string(),
        size_unit: SizeUnit::Bytes,
        perm_style: "p".to_string(),
        perm_special_style: "sp".to_string(),
        oct_style: "oct".to_string(),
        user_curr_style: "uc".to_string(),
        user_other_style: "uo".to_string(),
        group_curr_style: "gc".to_string(),
        group_other_style: "go".to_string(),
        nlink_styles: NlinkStyles {
            file_sing: "fs".to_string(),
            file_plur: "fp".to_string(),
            dir_sing: "ds".to_string(),
            dir_plur: "dp".to_string(),
        },
        atime_format: "[year]".to_string(),
        btime_format: "[year]".to_string(),
        ctime_format: "[year]".to_string(),
        mtime_format: "[year]".to_string(),
    }
}

#[test]
fn empty_status_is_blank_blank() {
    assert_eq!(format_git_status(0), "  ");
}

#[test]
fn staged_added_shows_on_the_index_side() {
    assert_eq!(format_git_status(INDEX_NEW), "<green>A</> ");
}

#[test]
fn worktree_modified_shows_on_the_worktree_side() {
    assert_eq!(format_git_status(WT_MODIFIED), " <red>M</>");
}

#[test]
fn both_sides_show_together() {
    assert_eq!(format_git_status(INDEX_MODIFIED | WT_DELETED), "<green>M</><red>D</>");
}

#[test]
fn untracked_shows_on_the_worktree_side_only() {
    assert_eq!(format_git_status(WT_NEW), " <red>?</>");
}

#[test]
fn untracked_keeps_the_index_side_intact() {
    assert_eq!(format_git_status(WT_NEW | INDEX_NEW), "<green>A</><red>?</>");
}

#[test]
fn conflicted_overrides_both_sides() {
    assert_eq!(format_git_status(CONFLICTED | INDEX_MODIFIED | WT_MODIFIED), "<red>UU</>");
}

#[test]
fn ignored_overrides_everything_else() {
    assert_eq!(format_git_status(IGNORED), "<red>!!</>");
    assert_eq!(format_git_status(IGNORED | CONFLICTED | WT_NEW | INDEX_NEW), "<red>!!</>");
    assert_eq!(format_git_status(IGNORED | WT_MODIFIED | INDEX_MODIFIED), "<red>!!</>");
}

#[test]
fn conflicted_overrides_untracked() {
    assert_eq!(format_git_status(CONFLICTED | WT_NEW), "<red>UU</>");
}

#[test]
fn strip_prefix_handles_trailing_slash() {
    assert_eq!(strip_prefix_str("/repo/sub/file", "/repo/"), Some("sub/file".to_string()));
    assert_eq!(strip_prefix_str("/repo/sub/file", "/repo"), Some("sub/file".to_string()));
}

#[test]
fn strip_prefix_of_the_base_itself_is_empty() {
    assert_eq!(strip_prefix_str("/repo", "/repo"), Some(String::new()));
}

#[test]
fn path_outside_the_base_does_not_strip() {
    assert_eq!(strip_prefix_str("/elsewhere/file", "/repo"), None);
    assert_eq!(strip_prefix_str("/repofile", "/repo"), None);
}

#[test]
fn one_modified_direct_child_marks_the_directory() {
    let entries = vec![Some("sub/file.txt".to_string())];
    assert!(dir_has_direct_change("sub", &entries));
}

#[test]
fn deeper_changes_do_not_mark_the_directory() {
    let entries = vec![Some("sub/deep/file.txt".to_string()), Some("other/file".to_string())];
    assert!(!dir_has_direct_change("sub", &entries));
}

#[test]
fn root_scope_counts_only_top_level_entries() {
    assert!(dir_has_direct_change("", &vec![Some("file".to_string())]));
    assert!(!dir_has_direct_change("", &vec![Some("d/file".to_string())]));
}

#[test]
fn entry_without_text_is_no_change() {
    let entries: Vec<Option<String>> = vec![None];
    assert!(!dir_has_direct_change("sub", &entries));
}

#[test]
fn failed_or_empty_file_query_reports_blank() {
    assert_eq!(file_status_cell(None), "  ");
    assert_eq!(file_status_cell(Some(0)), "  ");
}

#[test]
fn file_query_bits_map_to_their_code() {
    assert_eq!(file_status_cell(Some(WT_MODIFIED)), " <red>M</>");
    assert_eq!(file_status_cell(Some(INDEX_NEW | WT_NEW)), "<green>A</><red>?</>");
}

#[test]
fn failed_scoped_query_reports_blank() {
    assert_eq!(dir_children_cell("sub", None), "  ");
}

#[test]
fn scoped_query_decides_the_directory_marker() {
    assert_eq!(dir_children_cell("sub", Some(vec![Some("sub/a".to_string())])), "<red> *</>");
    assert_eq!(dir_children_cell("sub", Some(vec![Some("sub/deep/a".to_string())])), "  ");
}

#[test]
fn no_canonical_path_reports_blank() {
    let ec = entry_const();
    let node = Node::new("x".to_string(), Typ::File, None, None);
    assert_eq!(node.git(&ec), Some("  ".to_string()));
}

#[test]
fn no_enclosing_repository_reports_blank() {
    let node = Node::new("/".to_string(), Typ::File, None, Some("/".to_string()));
    assert_eq!(node.git_from_repo(None), Some("  ".to_string()));
}

#[test]
fn discovery_outside_any_repository_reports_blank() {
    let ec = entry_const();
    // the filesystem root lies in no repository
    let node = Node::new("/".to_string(), Typ::Dir, None, Some("/".to_string()));
    assert_eq!(node.git(&ec), Some("  ".to_string()));
}
