use std::path::Path;

use trench::git::{ahead_behind, create_worktree, dirty_count, discover_repo, list_worktrees, remove_worktree, GitError, RepoInfo};

fn init_repo_with_commit(dir: &Path) -> git2::Repository {
    let repo = git2::Repository::init(dir).expect("failed to init repo");
    {
        let sig = git2::Signature::now("Test", "test@test.com").unwrap();
        let tree_id = repo.index().unwrap().write_tree().unwrap();
        let tree = repo.find_tree(tree_id).unwrap();
        repo.commit(Some("HEAD"), &sig, &sig, "initial commit", &tree, &[]).unwrap();
    }
    repo
}

fn head_branch(repo: &git2::Repository) -> String {
    repo.head().unwrap().shorthand().unwrap().to_string()
}

fn commit_on(repo: &git2::Repository, branch: &str, n: usize) {
    let sig = git2::Signature::now("Test", "test@test.com").unwrap();
    let refname = format!("refs/heads/{branch}");
    for i in 0..n {
        let parent = repo.find_reference(&refname).unwrap().peel_to_commit().unwrap();
        let tree = repo.find_tree(repo.index().unwrap().write_tree().unwrap()).unwrap();
        repo.commit(Some(&refname), &sig, &sig, &format!("commit {i}"), &tree, &[&parent]).unwrap();
    }
}

fn s(p: &Path) -> &str {
    p.to_str().unwrap()
}

#[test]
fn repo_info_supports_equality() {
    let a = RepoInfo {
        name: "repo".into(),
        path: "/tmp/repo".into(),
        remote_url: Some("https://github.com/test/repo.git".into()),
        default_branch: "main".into(),
    };
    let b = RepoInfo {
        name: "repo".into(),
        path: "/tmp/repo".into(),
        remote_url: Some("https://github.com/test/repo.git".into()),
        default_branch: "main".into(),
    };
    assert_eq!(a, b);
}

#[test]
fn discover_repo_finds_repo_at_root() {
    let tmp = tempfile::tempdir().unwrap();
    let repo = init_repo_with_commit(tmp.path());
    let info = discover_repo(s(tmp.path())).expect("should discover");
    let canonical = tmp.path().canonicalize().unwrap();
    assert_eq!(info.path, canonical.to_str().unwrap());
    assert_eq!(info.name, canonical.file_name().unwrap().to_str().unwrap());
    assert_eq!(info.default_branch, head_branch(&repo));
    assert!(info.remote_url.is_none());
}

#[test]
fn discover_repo_fails_for_non_git_directory() {
    let tmp = tempfile::tempdir().unwrap();
    let result = discover_repo(s(tmp.path()));
    assert!(matches!(result, Err(GitError::NotAGitRepo { .. }) | Err(GitError::Git(_))), "got {result:?}");
}

#[test]
fn create_worktree_creates_branch_from_base() {
    let repo_dir = tempfile::tempdir().unwrap();
    let repo = init_repo_with_commit(repo_dir.path());
    let base = head_branch(&repo);
    let wt_dir = tempfile::tempdir().unwrap();
    let target = wt_dir.path().join("my-feature");

    create_worktree(s(repo_dir.path()), "my-feature", &base, s(&target)).expect("should create");

    assert!(target.exists());
    let branch = repo.find_branch("my-feature", git2::BranchType::Local).unwrap();
    let base_commit = repo.find_branch(&base, git2::BranchType::Local).unwrap().get().target();
    assert_eq!(branch.get().target(), base_commit);
    let entries = list_worktrees(s(repo_dir.path())).unwrap();
    assert!(entries[0].is_main);
    assert!(entries.iter().any(|e| e.name == "my-feature" && !e.is_main));
}

#[test]
fn create_worktree_errors_when_branch_already_exists() {
    let repo_dir = tempfile::tempdir().unwrap();
    let repo = init_repo_with_commit(repo_dir.path());
    let base = head_branch(&repo);
    let head = repo.head().unwrap().peel_to_commit().unwrap();
    repo.branch("existing", &head, false).unwrap();
    let wt_dir = tempfile::tempdir().unwrap();
    let target = wt_dir.path().join("existing");

    let err = create_worktree(s(repo_dir.path()), "existing", &base, s(&target)).unwrap_err();
    assert!(matches!(err, GitError::BranchAlreadyExists { ref branch } if branch == "existing"), "got {err:?}");
    assert!(!target.exists());
}

#[test]
fn create_worktree_errors_when_base_branch_does_not_exist() {
    let repo_dir = tempfile::tempdir().unwrap();
    init_repo_with_commit(repo_dir.path());
    let wt_dir = tempfile::tempdir().unwrap();
    let target = wt_dir.path().join("x");

    let err = create_worktree(s(repo_dir.path()), "x", "no-such-base", s(&target)).unwrap_err();
    assert!(matches!(err, GitError::BaseBranchNotFound { ref base } if base == "no-such-base"), "got {err:?}");
}

#[test]
fn create_worktree_errors_when_branch_exists_on_remote() {
    let repo_dir = tempfile::tempdir().unwrap();
    let repo = init_repo_with_commit(repo_dir.path());
    let base = head_branch(&repo);
    let sig = git2::Signature::now("Test", "test@test.com").unwrap();
    let head = repo.head().unwrap().peel_to_commit().unwrap();
    let tree = repo.find_tree(repo.index().unwrap().write_tree().unwrap()).unwrap();
    let remote_oid = repo.commit(None, &sig, &sig, "remote commit", &tree, &[&head]).unwrap();
    repo.reference("refs/remotes/origin/taken-branch", remote_oid, false, "fake remote tracking branch for test").unwrap();

    let wt_dir = tempfile::tempdir().unwrap();
    let target = wt_dir.path().join("taken-branch");

    let err = create_worktree(s(repo_dir.path()), "taken-branch", &base, s(&target)).unwrap_err();
    assert!(
        matches!(err, GitError::RemoteBranchAlreadyExists { ref branch, ref remote } if branch == "taken-branch" && remote == "origin"),
        "expected RemoteBranchAlreadyExists, got: {err:?}"
    );
    assert!(!target.exists(), "worktree directory should NOT be created");
}

#[test]
fn create_worktree_resolves_base_from_remote_tracking_branch() {
    let repo_dir = tempfile::tempdir().unwrap();
    let repo = init_repo_with_commit(repo_dir.path());
    let head = repo.head().unwrap().peel_to_commit().unwrap();
    repo.reference("refs/remotes/origin/release", head.id(), false, "remote base").unwrap();
    let wt_dir = tempfile::tempdir().unwrap();
    let target = wt_dir.path().join("from-release");

    create_worktree(s(repo_dir.path()), "from-release", "release", s(&target)).expect("should use origin/release");
    let branch = repo.find_branch("from-release", git2::BranchType::Local).unwrap();
    assert_eq!(branch.get().target(), Some(head.id()));
}

#[test]
fn failed_worktree_add_leaves_no_branch() {
    let repo_dir = tempfile::tempdir().unwrap();
    let repo = init_repo_with_commit(repo_dir.path());
    let base = head_branch(&repo);
    // The target is an existing, non-empty directory: adding the worktree there fails.
    let occupied = tempfile::tempdir().unwrap();
    let blocker = init_repo_with_commit(occupied.path());
    drop(blocker);

    let result = create_worktree(s(repo_dir.path()), "doomed", &base, s(occupied.path()));
    assert!(matches!(result, Err(GitError::Git(_))), "got {result:?}");
    assert!(repo.find_branch("doomed", git2::BranchType::Local).is_err(), "the branch must be rolled back");
}

#[test]
fn ahead_behind_returns_zero_zero_when_at_same_commit() {
    let tmp = tempfile::tempdir().unwrap();
    let repo = init_repo_with_commit(tmp.path());
    let base = head_branch(&repo);
    let head = repo.head().unwrap().peel_to_commit().unwrap();
    repo.branch("same", &head, false).unwrap();
    assert_eq!(ahead_behind(s(tmp.path()), "same", Some(&base)).unwrap(), Some((0, 0)));
}

#[test]
fn ahead_behind_counts_commits_ahead_of_base() {
    let tmp = tempfile::tempdir().unwrap();
    let repo = init_repo_with_commit(tmp.path());
    let base = head_branch(&repo);
    let head = repo.head().unwrap().peel_to_commit().unwrap();
    repo.branch("feature-ahead", &head, false).unwrap();
    commit_on(&repo, "feature-ahead", 2);

    let result = ahead_behind(s(tmp.path()), "feature-ahead", Some(&base)).expect("should succeed");
    assert_eq!(result, Some((2, 0)), "feature should be 2 ahead, 0 behind");
}

#[test]
fn ahead_behind_counts_commits_behind_base() {
    let tmp = tempfile::tempdir().unwrap();
    let repo = init_repo_with_commit(tmp.path());
    let base = head_branch(&repo);
    let head = repo.head().unwrap().peel_to_commit().unwrap();
    repo.branch("feature-behind", &head, false).unwrap();
    commit_on(&repo, &base, 3);

    let result = ahead_behind(s(tmp.path()), "feature-behind", Some(&base)).expect("should succeed");
    assert_eq!(result, Some((0, 3)), "feature should be 0 ahead, 3 behind");
}

#[test]
fn ahead_behind_returns_none_when_no_upstream_and_no_base() {
    let tmp = tempfile::tempdir().unwrap();
    let repo = init_repo_with_commit(tmp.path());
    let head = repo.head().unwrap().peel_to_commit().unwrap();
    repo.branch("lonely", &head, false).unwrap();
    assert_eq!(ahead_behind(s(tmp.path()), "lonely", None).unwrap(), None);
}

#[test]
fn dirty_count_returns_zero_for_clean_worktree() {
    let tmp = tempfile::tempdir().unwrap();
    init_repo_with_commit(tmp.path());
    assert_eq!(dirty_count(s(tmp.path())).unwrap(), 0);
}

#[test]
fn remove_worktree_deletes_directory_and_prunes() {
    let repo_dir = tempfile::tempdir().unwrap();
    let repo = init_repo_with_commit(repo_dir.path());
    let base = head_branch(&repo);
    let wt_dir = tempfile::tempdir().unwrap();
    let target = wt_dir.path().join("to-remove");
    create_worktree(s(repo_dir.path()), "to-remove", &base, s(&target)).unwrap();
    assert!(target.exists());

    remove_worktree(s(repo_dir.path()), s(&target)).expect("should remove");
    assert!(!target.exists());
    assert!(repo.find_branch("to-remove", git2::BranchType::Local).is_ok(), "the branch is kept");
    let entries = list_worktrees(s(repo_dir.path())).unwrap();
    assert!(entries.iter().all(|e| e.name != "to-remove"));
}

#[test]
fn remove_worktree_errors_for_nonexistent_path() {
    let repo_dir = tempfile::tempdir().unwrap();
    init_repo_with_commit(repo_dir.path());
    let err = remove_worktree(s(repo_dir.path()), "/definitely/not/here").unwrap_err();
    assert!(matches!(err, GitError::WorktreeNotFound { ref name } if name == "/definitely/not/here"));
}

#[test]
fn create_worktree_succeeds_after_remote_branch_deleted() {
    let remote_dir = tempfile::tempdir().unwrap();
    let remote_repo = git2::Repository::init_bare(remote_dir.path()).unwrap();
    {
        let sig = git2::Signature::now("Test", "test@test.com").unwrap();
        let empty_tree = remote_repo.treebuilder(None).unwrap().write().unwrap();
        let tree = remote_repo.find_tree(empty_tree).unwrap();
        let oid = remote_repo.commit(Some("refs/heads/main"), &sig, &sig, "init", &tree, &[]).unwrap();
        let commit = remote_repo.find_commit(oid).unwrap();
        remote_repo.branch("stale-branch", &commit, false).unwrap();
    }

    let clone_dir = tempfile::tempdir().unwrap();
    let clone = git2::build::RepoBuilder::new().clone(remote_dir.path().to_str().unwrap(), clone_dir.path()).unwrap();
    assert!(
        clone.find_branch("origin/stale-branch", git2::BranchType::Remote).is_ok(),
        "stale-branch should exist as remote tracking before deletion"
    );

    remote_repo.find_branch("stale-branch", git2::BranchType::Local).unwrap().delete().unwrap();
    assert!(
        clone.find_branch("origin/stale-branch", git2::BranchType::Remote).is_ok(),
        "stale ref should still exist before fetch+prune"
    );

    // The remote's only branch is `main`; the clone knows it as `origin/main`.
    let base = "main";
    let wt_dir = tempfile::tempdir().unwrap();
    let target = wt_dir.path().join("stale-branch");

    let result = create_worktree(s(clone_dir.path()), "stale-branch", base, s(&target));
    assert!(result.is_ok(), "should succeed after remote branch deleted, got: {result:?}");
    assert!(target.exists(), "worktree directory should exist on disk");
}
