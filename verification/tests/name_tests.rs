use gilthub::name::{archive_repo_name, basename_str, restore_repo_name, strip_git_str, trim_str};

#[test]
fn basename_simple() {
    assert_eq!(basename_str("a/b/c"), "c");
}

#[test]
fn basename_no_slash() {
    assert_eq!(basename_str("widget"), "widget");
}

#[test]
fn basename_trailing_slashes() {
    assert_eq!(basename_str("a/b//"), "b");
}

#[test]
fn basename_all_slashes() {
    assert_eq!(basename_str("///"), "");
}

#[test]
fn basename_empty() {
    assert_eq!(basename_str(""), "");
}

#[test]
fn strip_git_removes_every_occurrence() {
    assert_eq!(strip_git_str("a.gitb.git"), "ab");
}

#[test]
fn strip_git_scans_left_to_right() {
    assert_eq!(strip_git_str("..gitgit"), ".git");
}

#[test]
fn strip_git_leaves_plain_text() {
    assert_eq!(strip_git_str("widget.tar.gz"), "widget.tar.gz");
}

#[test]
fn trim_both_ends() {
    assert_eq!(trim_str("  widget\n"), "widget");
}

#[test]
fn trim_unicode_white_space() {
    assert_eq!(trim_str("\u{a0}x\u{3000}"), "x");
}

#[test]
fn trim_all_space_is_empty() {
    assert_eq!(trim_str(" \t \r\n"), "");
}

#[test]
fn archive_name_strips_one_trailing_git() {
    assert_eq!(archive_repo_name("git@example.com:org/widget.git"), "widget");
}

#[test]
fn archive_name_removes_inner_occurrences_too() {
    assert_eq!(archive_repo_name("host:/r/my.gitrepo.git"), "myrepo");
}

#[test]
fn archive_name_has_no_path_separator() {
    let n = archive_repo_name("https://example.com/a/b/deep/path/thing.git");
    assert_eq!(n, "thing");
    assert!(!n.contains('/'));
}

#[test]
fn restore_name_keeps_full_archive_file_name() {
    assert_eq!(
        restore_repo_name("s3://my-bucket/archives/widget.tar.gz"),
        "widget.tar.gz"
    );
}
