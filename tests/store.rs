use trench::state::{backup_path, text_not_after, unix_epoch_secs, update_statement, Database, SqlValue, StoreError, WorktreeUpdate};

#[test]
fn unix_epoch_secs_returns_reasonable_value() {
    let ts = unix_epoch_secs();
    assert!(ts > 1_700_000_000, "timestamp too old: {ts}");
    assert!(ts < 4_102_444_800, "timestamp too far in the future: {ts}");
}

#[test]
fn open_in_memory_applies_pragmas_and_creates_tables() {
    let db = Database::open_in_memory().expect("should open in-memory database");
    // Every table the schema declares is usable.
    let repo = db.insert_repo("r", "/r", None).unwrap();
    let wt = db.insert_worktree(repo.id, "wt", "b", "/r/wt", None).unwrap();
    db.insert_event(repo.id, Some(wt.id), "created", None).unwrap();
    db.add_tag(wt.id, "x").unwrap();
    db.set_session("current_worktree", "wt").unwrap();
    assert_eq!(db.get_session("current_worktree").unwrap().as_deref(), Some("wt"));
}

#[test]
fn insert_and_get_repo_round_trip() {
    let db = Database::open_in_memory().unwrap();

    let repo = db.insert_repo("my-project", "/home/user/my-project", Some("main")).expect("insert_repo should succeed");

    assert_eq!(repo.name, "my-project");
    assert_eq!(repo.path, "/home/user/my-project");
    assert_eq!(repo.default_base.as_deref(), Some("main"));
    assert!(repo.id > 0);
    assert!(repo.created_at > 0);

    let fetched = db.get_repo(repo.id).expect("get_repo should succeed").expect("repo should exist");

    assert_eq!(fetched.id, repo.id);
    assert_eq!(fetched.name, repo.name);
    assert_eq!(fetched.path, repo.path);
    assert_eq!(fetched.default_base, repo.default_base);
    assert_eq!(fetched.created_at, repo.created_at);
}

#[test]
fn insert_and_get_worktree_round_trip() {
    let db = Database::open_in_memory().unwrap();
    let repo = db.insert_repo("my-project", "/home/user/my-project", Some("main")).unwrap();

    let wt = db
        .insert_worktree(repo.id, "feature-auth", "feature/auth", "/home/user/.worktrees/my-project/feature-auth", Some("main"))
        .expect("insert_worktree should succeed");

    assert_eq!(wt.repo_id, repo.id);
    assert_eq!(wt.name, "feature-auth");
    assert_eq!(wt.branch, "feature/auth");
    assert_eq!(wt.path, "/home/user/.worktrees/my-project/feature-auth");
    assert_eq!(wt.base_branch.as_deref(), Some("main"));
    assert!(wt.managed);
    assert!(wt.adopted_at.is_none());
    assert!(wt.created_at > 0);

    let fetched = db.get_worktree(wt.id).expect("get_worktree should succeed").expect("worktree should exist");

    assert_eq!(fetched.id, wt.id);
    assert_eq!(fetched.name, wt.name);
    assert_eq!(fetched.branch, wt.branch);
    assert_eq!(fetched.path, wt.path);
    assert_eq!(fetched.base_branch, wt.base_branch);
    assert_eq!(fetched.managed, wt.managed);
}

#[test]
fn list_worktrees_scoped_to_repo() {
    let db = Database::open_in_memory().unwrap();
    let repo_a = db.insert_repo("repo-a", "/a", None).unwrap();
    let repo_b = db.insert_repo("repo-b", "/b", None).unwrap();

    db.insert_worktree(repo_a.id, "wt-1", "branch-1", "/a/wt-1", None).unwrap();
    db.insert_worktree(repo_a.id, "wt-2", "branch-2", "/a/wt-2", None).unwrap();
    db.insert_worktree(repo_b.id, "wt-3", "branch-3", "/b/wt-3", None).unwrap();

    let list_a = db.list_worktrees(repo_a.id).expect("list should succeed");
    assert_eq!(list_a.len(), 2);
    assert!(list_a.iter().all(|w| w.repo_id == repo_a.id));

    let list_b = db.list_worktrees(repo_b.id).unwrap();
    assert_eq!(list_b.len(), 1);
    assert_eq!(list_b[0].name, "wt-3");
}

#[test]
fn update_worktree_modifies_fields() {
    let db = Database::open_in_memory().unwrap();
    let repo = db.insert_repo("r", "/r", None).unwrap();
    let wt = db.insert_worktree(repo.id, "wt", "branch", "/wt", None).unwrap();

    assert!(wt.last_accessed.is_none());
    assert!(wt.adopted_at.is_none());

    let ts = 1700000000_i64;
    db.update_worktree(wt.id, &WorktreeUpdate { last_accessed: Some(Some(ts)), adopted_at: Some(Some(ts)), ..Default::default() })
        .expect("update should succeed");

    let fetched = db.get_worktree(wt.id).unwrap().unwrap();
    assert_eq!(fetched.last_accessed, Some(ts));
    assert_eq!(fetched.adopted_at, Some(ts));
    assert_eq!(fetched.name, "wt");
    assert!(fetched.managed);
}

#[test]
fn insert_event_stores_json_payload() {
    let db = Database::open_in_memory().unwrap();
    let repo = db.insert_repo("r", "/r", None).unwrap();
    let wt = db.insert_worktree(repo.id, "wt", "b", "/wt", None).unwrap();

    let payload = String::from(r#"{"from":"main","strategy":"rebase"}"#);
    let event_id = db.insert_event(repo.id, Some(wt.id), "sync", Some(&payload)).expect("insert_event should succeed");

    assert!(event_id > 0);
    assert_eq!(db.count_events(wt.id, Some("sync")).unwrap(), 1);
    assert_eq!(db.count_events(wt.id, Some("created")).unwrap(), 0);
}

#[test]
fn update_worktree_not_found() {
    let db = Database::open_in_memory().unwrap();
    let result = db.update_worktree(999, &WorktreeUpdate { managed: Some(true), ..Default::default() });
    let err = result.expect_err("should error for non-existent worktree");
    let msg = err.message();
    assert!(msg.contains("not found"), "error should mention 'not found', got: {msg}");
    assert!(matches!(err, StoreError::NotFound { id: 999 }));
}

#[test]
fn update_worktree_clears_nullable_field() {
    let db = Database::open_in_memory().unwrap();
    let repo = db.insert_repo("r", "/r", None).unwrap();
    let wt = db.insert_worktree(repo.id, "wt", "branch", "/wt", Some("main")).unwrap();
    assert_eq!(wt.base_branch.as_deref(), Some("main"));

    db.update_worktree(wt.id, &WorktreeUpdate { base_branch: Some(Some("develop".to_string())), ..Default::default() }).unwrap();
    let fetched = db.get_worktree(wt.id).unwrap().unwrap();
    assert_eq!(fetched.base_branch.as_deref(), Some("develop"));

    db.update_worktree(wt.id, &WorktreeUpdate { base_branch: Some(None), ..Default::default() }).unwrap();
    let fetched = db.get_worktree(wt.id).unwrap().unwrap();
    assert_eq!(fetched.base_branch, None, "base_branch should be NULL");

    db.update_worktree(wt.id, &WorktreeUpdate { adopted_at: Some(Some(1700000000)), ..Default::default() }).unwrap();
    let fetched = db.get_worktree(wt.id).unwrap().unwrap();
    assert_eq!(fetched.adopted_at, Some(1700000000));

    db.update_worktree(wt.id, &WorktreeUpdate { adopted_at: Some(None), ..Default::default() }).unwrap();
    let fetched = db.get_worktree(wt.id).unwrap().unwrap();
    assert_eq!(fetched.adopted_at, None, "adopted_at should be NULL");
}

#[test]
fn empty_update_is_a_no_op_that_succeeds() {
    let db = Database::open_in_memory().unwrap();
    assert!(db.update_worktree(12345, &WorktreeUpdate::default()).is_ok());
    assert!(update_statement(1, &WorktreeUpdate::default()).is_none());
}

#[test]
fn update_statement_for_null_base_branch() {
    let (sql, params) = update_statement(7, &WorktreeUpdate { base_branch: Some(None), ..Default::default() }).unwrap();
    assert_eq!(sql, "UPDATE worktrees SET base_branch = ? WHERE id = ?");
    assert_eq!(params, vec![SqlValue::Null, SqlValue::Integer(7)]);
    let (sql, params) =
        update_statement(3, &WorktreeUpdate { last_accessed: Some(Some(5)), managed: Some(false), ..Default::default() }).unwrap();
    assert_eq!(sql, "UPDATE worktrees SET last_accessed = ?, managed = ? WHERE id = ?");
    assert_eq!(params, vec![SqlValue::Integer(5), SqlValue::Integer(0), SqlValue::Integer(3)]);
}

#[test]
fn event_rejects_mismatched_repo_worktree() {
    let db = Database::open_in_memory().unwrap();
    let repo_a = db.insert_repo("repo-a", "/a", None).unwrap();
    let repo_b = db.insert_repo("repo-b", "/b", None).unwrap();
    let wt_b = db.insert_worktree(repo_b.id, "wt", "branch", "/b/wt", None).unwrap();

    let result = db.insert_event(repo_a.id, Some(wt_b.id), "sync", None);
    assert!(result.is_err(), "should reject event with mismatched repo_id and worktree_id");
}

#[test]
fn foreign_key_prevents_orphan_worktree() {
    let db = Database::open_in_memory().unwrap();
    let result = db.insert_worktree(9999, "wt", "b", "/wt", None);
    assert!(result.is_err(), "FK should reject non-existent repo_id");
}

#[test]
fn get_repo_by_path_returns_none_for_missing() {
    let db = Database::open_in_memory().unwrap();
    let result = db.get_repo_by_path("/nonexistent").unwrap();
    assert!(result.is_none());
}

#[test]
fn get_repo_by_path_returns_existing_repo() {
    let db = Database::open_in_memory().unwrap();
    let repo = db.insert_repo("my-project", "/home/user/my-project", Some("main")).unwrap();

    let found = db.get_repo_by_path("/home/user/my-project").unwrap().expect("should find repo by path");

    assert_eq!(found.id, repo.id);
    assert_eq!(found.name, "my-project");
    assert_eq!(found.path, "/home/user/my-project");
    assert_eq!(found.default_base.as_deref(), Some("main"));
}

#[test]
fn soft_deleted_worktree_is_not_listed_but_kept() {
    let db = Database::open_in_memory().unwrap();
    let repo = db.insert_repo("r", "/r", None).unwrap();
    let keep = db.insert_worktree(repo.id, "keep", "keep", "/r/keep", None).unwrap();
    let gone = db.insert_worktree(repo.id, "gone", "gone", "/r/gone", None).unwrap();
    db.insert_event(repo.id, Some(gone.id), "created", None).unwrap();
    db.update_worktree(gone.id, &WorktreeUpdate { removed_at: Some(Some(1_700_000_000)), ..Default::default() }).unwrap();
    db.insert_event(repo.id, Some(gone.id), "removed", None).unwrap();

    let listed = db.list_worktrees(repo.id).unwrap();
    assert_eq!(listed.len(), 1);
    assert_eq!(listed[0].id, keep.id);
    assert!(db.find_worktree_by_identifier(repo.id, "gone").unwrap().is_none());
    let row = db.get_worktree(gone.id).unwrap().expect("row is kept");
    assert_eq!(row.removed_at, Some(1_700_000_000));
    assert_eq!(db.count_events(gone.id, None).unwrap(), 2);

    // A removal mark is never cleared.
    db.update_worktree(gone.id, &WorktreeUpdate { removed_at: Some(None), ..Default::default() }).unwrap();
    assert_eq!(db.get_worktree(gone.id).unwrap().unwrap().removed_at, Some(1_700_000_000));
}

#[test]
fn tags_are_idempotent_and_sorted() {
    let db = Database::open_in_memory().unwrap();
    let repo = db.insert_repo("r", "/r", None).unwrap();
    let wt = db.insert_worktree(repo.id, "wt", "b", "/r/wt", None).unwrap();
    db.add_tag(wt.id, "zeta").unwrap();
    db.add_tag(wt.id, "alpha").unwrap();
    db.add_tag(wt.id, "alpha").unwrap();
    db.remove_tag(wt.id, "missing").unwrap();
    assert_eq!(db.list_tags(wt.id).unwrap(), vec!["alpha".to_string(), "zeta".to_string()]);
    assert_eq!(db.list_worktrees_by_tag(repo.id, "zeta").unwrap().len(), 1);
    db.remove_tag(wt.id, "zeta").unwrap();
    assert!(db.list_worktrees_by_tag(repo.id, "zeta").unwrap().is_empty());
}

#[test]
fn find_worktree_by_name_or_branch() {
    let db = Database::open_in_memory().unwrap();
    let repo = db.insert_repo("r", "/r", None).unwrap();
    let wt = db.insert_worktree(repo.id, "feature-auth", "feature/auth", "/r/fa", None).unwrap();
    assert_eq!(db.find_worktree_by_identifier(repo.id, "feature-auth").unwrap().unwrap().id, wt.id);
    assert_eq!(db.find_worktree_by_identifier(repo.id, "feature/auth").unwrap().unwrap().id, wt.id);
    assert!(db.find_worktree_by_identifier(repo.id, "other").unwrap().is_none());
}

#[test]
fn open_refuses_store_ahead_of_this_build() {
    let dir = tempfile::tempdir().unwrap();
    let db_path = dir.path().join("trench.db");
    {
        let conn = rusqlite::Connection::open(&db_path).unwrap();
        conn.pragma_update(None, "user_version", 99).unwrap();
    }
    let result = Database::open(db_path.to_str().unwrap());
    assert!(matches!(result, Err(StoreError::TooFarAhead)));
}

#[test]
fn open_creates_usable_store_file() {
    let dir = tempfile::tempdir().unwrap();
    let db_path = dir.path().join("trench.db");
    let db = Database::open(db_path.to_str().unwrap()).unwrap();
    db.insert_repo("test", "/test", None).expect("should be able to use db");
    drop(db);
    let again = Database::open(db_path.to_str().unwrap()).unwrap();
    assert!(again.get_repo_by_path("/test").unwrap().is_some());
}

#[test]
fn backup_path_appends_timestamp() {
    assert_eq!(backup_path("/data/trench.db", 1700000000), "/data/trench.db.backup-1700000000");
}

#[test]
fn text_order_is_character_order() {
    assert!(text_not_after(&"alpha".to_string(), &"beta".to_string()));
    assert!(!text_not_after(&"beta".to_string(), &"alpha".to_string()));
    assert!(text_not_after(&"ab".to_string(), &"ab".to_string()));
    assert!(text_not_after(&"a".to_string(), &"ab".to_string()));
    assert!(!text_not_after(&"ab".to_string(), &"a".to_string()));
    assert!(text_not_after(&"Z".to_string(), &"a".to_string()));
}
