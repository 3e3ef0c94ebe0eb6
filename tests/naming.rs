use trench::paths::{join_path, render_worktree_path, sanitize_branch, DEFAULT_WORKTREE_TEMPLATE};

#[test]
fn sanitize_slash_to_dash() {
    assert_eq!(sanitize_branch("feature/auth"), "feature-auth");
}

#[test]
fn sanitize_at_to_dash() {
    assert_eq!(sanitize_branch("fix@home"), "fix-home");
}

#[test]
fn sanitize_double_dots_stripped() {
    assert_eq!(sanitize_branch("a..b"), "a-b");
}

#[test]
fn sanitize_consecutive_dashes_collapsed() {
    assert_eq!(sanitize_branch("a--b"), "a-b");
}

#[test]
fn sanitize_single_dots_preserved() {
    assert_eq!(sanitize_branch("v2.1.3"), "v2.1.3");
}

#[test]
fn sanitize_spaces_to_dash() {
    assert_eq!(sanitize_branch("my branch"), "my-branch");
}

#[test]
fn sanitize_leading_trailing_dashes_trimmed() {
    assert_eq!(sanitize_branch("/leading"), "leading");
    assert_eq!(sanitize_branch("trailing/"), "trailing");
}

#[test]
fn sanitize_empty_branch() {
    assert_eq!(sanitize_branch(""), "");
}

#[test]
fn sanitize_single_dot() {
    assert_eq!(sanitize_branch("."), ".");
}

#[test]
fn sanitize_triple_dots() {
    assert_eq!(sanitize_branch("..."), ".");
}

#[test]
fn sanitize_combined_edge_cases() {
    assert_eq!(sanitize_branch("a/@b"), "a-b");
    assert_eq!(sanitize_branch(".."), "");
    assert_eq!(sanitize_branch("feature/..secret/auth"), "feature-secret-auth");
}

#[test]
fn render_default_template_with_repo_and_branch() {
    let path = render_worktree_path(DEFAULT_WORKTREE_TEMPLATE, "my-project", "feature/auth").unwrap();
    assert_eq!(path, "my-project/feature-auth");
}

#[test]
fn render_custom_template() {
    let tmpl = "projects/{{ repo }}/{{ branch | sanitize }}";
    let path = render_worktree_path(tmpl, "trench", "fix@home").unwrap();
    assert_eq!(path, "projects/trench/fix-home");
}

#[test]
fn render_template_branch_without_sanitize_filter() {
    let path = render_worktree_path("{{ repo }}/{{ branch }}", "trench", "feature/auth").unwrap();
    assert_eq!(path, "trench/feature/auth");
}

#[test]
fn render_rejects_malformed_template() {
    assert!(render_worktree_path("{{ repo", "r", "b").is_err());
}

#[test]
fn join_path_inserts_one_separator() {
    assert_eq!(join_path("/home/u/.worktrees", "repo/x"), "/home/u/.worktrees/repo/x");
    assert_eq!(join_path("/home/u/.worktrees/", "repo/x"), "/home/u/.worktrees/repo/x");
    assert_eq!(join_path("/root", "/abs/x"), "/abs/x");
    assert_eq!(join_path("", "rel"), "rel");
}
