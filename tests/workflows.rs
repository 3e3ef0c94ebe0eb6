use std::path::Path;

use trench::commands::create::{execute, execute_dry_run};
use trench::commands::list::{execute_porcelain, fetch_all_worktrees, render_table};
use trench::commands::CommandError;
use trench::git::GitError;
use trench::paths::DEFAULT_WORKTREE_TEMPLATE;
use trench::state::Database;

fn init_repo_with_commit(dir: &Path) -> git2::Repository {
    let repo = git2::Repository::init(dir).expect("failed to init repo");
    {
        let sig = git2::Signature::now("Test", "test@test.com").unwrap();
        let tree_id = repo.index().unwrap().write_tree().unwrap();
        let tree = repo.find_tree(tree_id).unwrap();
        repo.commit(Some("HEAD"), &sig, &sig, "initial commit", &tree, &[]).unwrap();
    }
    repo
}

fn s(p: &Path) -> &str {
    p.to_str().unwrap()
}

fn repo_name(dir: &Path) -> String {
    dir.canonicalize().unwrap().file_name().unwrap().to_str().unwrap().to_string()
}

fn canonical(dir: &Path) -> String {
    dir.canonicalize().unwrap().to_str().unwrap().to_string()
}

/// The directory that holds the repository's worktrees under the root.
fn make_repo_dir(wt_root: &Path, repo_dir: &Path) -> tempfile::TempDir {
    tempfile::Builder::new().prefix(&repo_name(repo_dir)).rand_bytes(0).tempdir_in(wt_root).unwrap()
}

#[test]
fn create_worktree_happy_path_end_to_end() {
    let repo_dir = tempfile::tempdir().unwrap();
    let _repo = init_repo_with_commit(repo_dir.path());
    let wt_root = tempfile::tempdir().unwrap();
    let _holder = make_repo_dir(wt_root.path(), repo_dir.path());
    let db = Database::open_in_memory().unwrap();

    let path = execute("my-feature", None, s(repo_dir.path()), s(wt_root.path()), DEFAULT_WORKTREE_TEMPLATE, &db)
        .expect("create should succeed");

    assert!(Path::new(&path).exists(), "worktree directory should exist on disk");
    assert!(Path::new(&path).join(".git").exists(), "worktree should have .git entry");
    let expected_path = wt_root.path().join(repo_name(repo_dir.path())).join("my-feature");
    assert_eq!(path, expected_path.to_str().unwrap());

    let db_repo = db.get_repo_by_path(&canonical(repo_dir.path())).unwrap().expect("repo should be persisted in DB");
    assert_eq!(db_repo.name, repo_name(repo_dir.path()));

    let worktrees = db.list_worktrees(db_repo.id).unwrap();
    assert_eq!(worktrees.len(), 1);
    assert_eq!(worktrees[0].branch, "my-feature");
    assert_eq!(worktrees[0].path, path);
    assert!(worktrees[0].managed);
    assert!(worktrees[0].base_branch.is_some());
    assert!(worktrees[0].created_at > 0);

    let event_count = db.count_events(worktrees[0].id, Some("created")).unwrap();
    assert_eq!(event_count, 1, "exactly one 'created' event should exist");
}

#[test]
fn create_errors_when_branch_already_exists() {
    let repo_dir = tempfile::tempdir().unwrap();
    let repo = init_repo_with_commit(repo_dir.path());
    let head = repo.head().unwrap().peel_to_commit().unwrap();
    repo.branch("taken", &head, false).unwrap();
    let wt_root = tempfile::tempdir().unwrap();
    let _holder = make_repo_dir(wt_root.path(), repo_dir.path());
    let db = Database::open_in_memory().unwrap();

    let err = execute("taken", None, s(repo_dir.path()), s(wt_root.path()), DEFAULT_WORKTREE_TEMPLATE, &db).unwrap_err();
    assert!(matches!(err, CommandError::Git(GitError::BranchAlreadyExists { .. })), "got {err:?}");
    assert!(db.get_repo_by_path(&canonical(repo_dir.path())).unwrap().is_none(), "nothing recorded");
}

#[test]
fn two_worktrees_in_same_repo_share_one_repo_record() {
    let repo_dir = tempfile::tempdir().unwrap();
    let _repo = init_repo_with_commit(repo_dir.path());
    let wt_root = tempfile::tempdir().unwrap();
    let _holder = make_repo_dir(wt_root.path(), repo_dir.path());
    let db = Database::open_in_memory().unwrap();

    execute("feature-a", None, s(repo_dir.path()), s(wt_root.path()), DEFAULT_WORKTREE_TEMPLATE, &db)
        .expect("first create should succeed");
    execute("feature-b", None, s(repo_dir.path()), s(wt_root.path()), DEFAULT_WORKTREE_TEMPLATE, &db)
        .expect("second create should succeed");

    let db_repo = db.get_repo_by_path(&canonical(repo_dir.path())).unwrap().expect("repo should exist");
    let worktrees = db.list_worktrees(db_repo.id).unwrap();
    assert_eq!(worktrees.len(), 2);
    assert_eq!(worktrees[0].branch, "feature-a");
    assert_eq!(worktrees[1].branch, "feature-b");
}

#[test]
fn dry_run_returns_plan_with_correct_fields_and_no_side_effects() {
    let repo_dir = tempfile::tempdir().unwrap();
    let repo = init_repo_with_commit(repo_dir.path());
    let head = repo.head().unwrap().shorthand().unwrap().to_string();
    let wt_root = tempfile::tempdir().unwrap();

    let plan = execute_dry_run("my-feature", None, s(repo_dir.path()), s(wt_root.path()), DEFAULT_WORKTREE_TEMPLATE, None)
        .expect("dry run should succeed");

    assert!(plan.dry_run);
    assert_eq!(plan.branch, "my-feature");
    assert_eq!(plan.base_branch, head);
    assert_eq!(plan.repo_name, repo_name(repo_dir.path()));
    let expected = wt_root.path().join(repo_name(repo_dir.path())).join("my-feature");
    assert_eq!(plan.worktree_path, expected.to_str().unwrap());
    assert!(plan.hooks.is_none());
    assert!(!expected.exists(), "dry run must not create the worktree");
    assert!(repo.find_branch("my-feature", git2::BranchType::Local).is_err(), "dry run must not create the branch");
}

#[test]
fn remove_happy_path_end_to_end() {
    let repo_dir = tempfile::tempdir().unwrap();
    let repo = init_repo_with_commit(repo_dir.path());
    let wt_root = tempfile::tempdir().unwrap();
    let _holder = make_repo_dir(wt_root.path(), repo_dir.path());
    let db = Database::open_in_memory().unwrap();
    let path = execute("feature/gone", None, s(repo_dir.path()), s(wt_root.path()), "{{ repo }}/{{ branch | sanitize }}", &db);
    // Branch names with a slash give a worktree name git may refuse; use a plain one then.
    let (branch, path) = match path {
        Ok(p) => ("feature/gone", p),
        Err(_) => {
            let p = execute("gone", None, s(repo_dir.path()), s(wt_root.path()), DEFAULT_WORKTREE_TEMPLATE, &db).unwrap();
            ("gone", p)
        }
    };

    let result = trench::commands::remove::execute(branch, s(repo_dir.path()), &db, false).expect("remove should succeed");
    assert!(!result.pruned_remote);
    assert!(!Path::new(&path).exists(), "directory should be gone");
    assert!(repo.find_branch(branch, git2::BranchType::Local).is_ok(), "branch is kept");

    let db_repo = db.get_repo_by_path(&canonical(repo_dir.path())).unwrap().unwrap();
    assert!(db.list_worktrees(db_repo.id).unwrap().is_empty(), "removed worktree is not listed");
}

#[test]
fn remove_not_found_returns_error() {
    let repo_dir = tempfile::tempdir().unwrap();
    init_repo_with_commit(repo_dir.path());
    let db = Database::open_in_memory().unwrap();
    db.insert_repo("r", &canonical(repo_dir.path()), Some("main")).unwrap();
    let err = trench::commands::remove::execute("nope", s(repo_dir.path()), &db, false).unwrap_err();
    assert!(err.message().contains("not found"), "got {}", err.message());
}

#[test]
fn switch_resolves_by_branch_name() {
    let repo_dir = tempfile::tempdir().unwrap();
    init_repo_with_commit(repo_dir.path());
    let db = Database::open_in_memory().unwrap();
    let repo = db.insert_repo("r", &canonical(repo_dir.path()), Some("main")).unwrap();
    let wt = db.insert_worktree(repo.id, "feature-auth", "feature/auth", "/wt/feature-auth", Some("main")).unwrap();

    let result = trench::commands::switch::execute("feature/auth", s(repo_dir.path()), &db).expect("switch should succeed");
    assert_eq!(result.path, "/wt/feature-auth");
    assert_eq!(result.name, "feature-auth");
    assert!(db.get_worktree(wt.id).unwrap().unwrap().last_accessed.is_some());
    assert_eq!(db.get_session("current_worktree").unwrap().as_deref(), Some("feature-auth"));
}

#[test]
fn switch_resolves_sanitized_fallback() {
    let repo_dir = tempfile::tempdir().unwrap();
    init_repo_with_commit(repo_dir.path());
    let db = Database::open_in_memory().unwrap();
    let repo = db.insert_repo("r", &canonical(repo_dir.path()), Some("main")).unwrap();
    db.insert_worktree(repo.id, "fix-home", "other-branch", "/wt/fix-home", None).unwrap();

    let result = trench::commands::switch::execute("fix@home", s(repo_dir.path()), &db).expect("sanitized name should match");
    assert_eq!(result.name, "fix-home");
}

#[test]
fn switch_not_found_returns_error() {
    let repo_dir = tempfile::tempdir().unwrap();
    init_repo_with_commit(repo_dir.path());
    let db = Database::open_in_memory().unwrap();
    db.insert_repo("r", &canonical(repo_dir.path()), Some("main")).unwrap();
    let err = trench::commands::switch::execute("ghost", s(repo_dir.path()), &db).unwrap_err();
    assert!(matches!(err, CommandError::WorktreeNotFound { ref identifier } if identifier == "ghost"));
}

#[test]
fn execute_adds_tags_to_worktree() {
    let repo_dir = tempfile::tempdir().unwrap();
    init_repo_with_commit(repo_dir.path());
    let db = Database::open_in_memory().unwrap();
    let repo = db.insert_repo("r", &canonical(repo_dir.path()), Some("main")).unwrap();
    db.insert_worktree(repo.id, "wt", "wt", "/wt/wt", None).unwrap();

    let out = trench::commands::tag::execute("wt", &vec!["+wip".to_string(), "+ready".to_string()], s(repo_dir.path()), &db).unwrap();
    assert_eq!(out, "Tags on 'wt': ready, wip\n");
    let out = trench::commands::tag::execute("wt", &vec![], s(repo_dir.path()), &db).unwrap();
    assert_eq!(out, "ready, wip\n");
    let out = trench::commands::tag::execute("wt", &vec!["-wip".to_string(), "-ready".to_string()], s(repo_dir.path()), &db).unwrap();
    assert_eq!(out, "All tags removed from worktree 'wt'.\n");
    let out = trench::commands::tag::execute("wt", &vec![], s(repo_dir.path()), &db).unwrap();
    assert_eq!(out, "No tags on worktree 'wt'.\n");
}

#[test]
fn shows_main_worktree_when_no_managed_worktrees() {
    let repo_dir = tempfile::tempdir().unwrap();
    init_repo_with_commit(repo_dir.path());
    let db = Database::open_in_memory().unwrap();

    let (_, entries) = fetch_all_worktrees(s(repo_dir.path()), &db, None).unwrap();
    assert_eq!(entries.len(), 1);
    assert!(!entries[0].managed);
    assert_eq!(entries[0].path, canonical(repo_dir.path()));

    let porcelain = execute_porcelain(s(repo_dir.path()), &db, None).unwrap();
    assert!(porcelain.ends_with(":false\n"), "got {porcelain:?}");

    let table = render_table(s(repo_dir.path()), &db, None, None).unwrap();
    assert!(table.contains("[unmanaged]"));
    assert!(table.contains("\u{1b}[2m"), "unmanaged rows are dimmed");
}

#[test]
fn list_with_tag_filter_shows_empty_when_no_match() {
    let repo_dir = tempfile::tempdir().unwrap();
    init_repo_with_commit(repo_dir.path());
    let db = Database::open_in_memory().unwrap();
    db.insert_repo("r", &canonical(repo_dir.path()), Some("main")).unwrap();
    let table = render_table(s(repo_dir.path()), &db, Some("nothing"), None).unwrap();
    assert_eq!(table, "No worktrees. Use `trench create` to get started.\n");
}

#[test]
fn remove_hands_back_a_directory_git_does_not_know() {
    let repo_dir = tempfile::tempdir().unwrap();
    init_repo_with_commit(repo_dir.path());
    let stray = tempfile::tempdir().unwrap();
    let db = Database::open_in_memory().unwrap();
    let repo = db.insert_repo("r", &canonical(repo_dir.path()), Some("main")).unwrap();
    db.insert_worktree(repo.id, "stray", "stray", s(stray.path()), None).unwrap();

    let result = trench::commands::remove::execute("stray", s(repo_dir.path()), &db, false).expect("remove should succeed");
    assert_eq!(result.directory_to_delete.as_deref(), Some(s(stray.path())));
    assert!(db.list_worktrees(repo.id).unwrap().is_empty(), "the record is marked removed");
}
