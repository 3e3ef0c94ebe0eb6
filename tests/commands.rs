use trench::commands::create::DryRunPlan;
use trench::commands::list::{
    build_worktree_json, format_ahead_behind, format_dirty, merge_entries, GitStatus, ListEntry,
};
use trench::commands::tag::{parse_tag_args, TagOp};
use trench::config::{HookDef, HooksConfig};
use trench::git::GitWorktreeEntry;
use trench::output::porcelain::PorcelainRecord;

#[test]
fn parse_add_tags() {
    let ops = parse_tag_args(&vec!["+wip".to_string(), "+review".to_string()]).unwrap();
    assert_eq!(ops, vec![TagOp::Add("wip".to_string()), TagOp::Add("review".to_string())]);
}

#[test]
fn parse_remove_tags() {
    let ops = parse_tag_args(&vec!["-wip".to_string()]).unwrap();
    assert_eq!(ops, vec![TagOp::Remove("wip".to_string())]);
}

#[test]
fn parse_mixed_tags() {
    let ops = parse_tag_args(&vec!["+wip".to_string(), "-old".to_string()]).unwrap();
    assert_eq!(ops, vec![TagOp::Add("wip".to_string()), TagOp::Remove("old".to_string())]);
}

#[test]
fn parse_rejects_bare_name() {
    let err = parse_tag_args(&vec!["bare".to_string()]).unwrap_err();
    assert!(err.message().contains("must start with"));
}

#[test]
fn parse_rejects_empty_tag_name() {
    let err = parse_tag_args(&vec!["+".to_string()]).unwrap_err();
    assert!(err.message().contains("cannot be empty"));
}

#[test]
fn dry_run_plan_formats_as_readable_text() {
    let plan = DryRunPlan {
        dry_run: true,
        branch: "my-feature".to_string(),
        base_branch: "main".to_string(),
        worktree_path: "/home/.worktrees/repo/my-feature".to_string(),
        repo_name: "repo".to_string(),
        hooks: None,
    };

    let text = plan.to_text();
    assert!(text.contains("my-feature"), "should contain branch name");
    assert!(text.contains("main"), "should contain base branch");
    assert!(text.contains("/home/.worktrees/repo/my-feature"), "should contain worktree path");
    assert!(
        text.contains("dry run") || text.contains("Dry run") || text.contains("DRY RUN"),
        "should indicate this is a dry run"
    );
}

#[test]
fn dry_run_includes_hooks_in_text_output() {
    let plan = DryRunPlan {
        dry_run: true,
        branch: "foo".to_string(),
        base_branch: "main".to_string(),
        worktree_path: "/tmp/wt/foo".to_string(),
        repo_name: "repo".to_string(),
        hooks: Some(HooksConfig {
            post_create: Some(HookDef {
                copy: Some(vec![".env*".to_string()]),
                run: Some(vec!["bun install".to_string()]),
                ..HookDef::default()
            }),
            ..HooksConfig::default()
        }),
    };

    let text = plan.to_text();
    assert!(text.contains("post_create"), "should mention post_create hook");
    assert!(text.contains("bun install"), "should list run commands");
    assert!(text.contains(".env*"), "should list copy patterns");
}

#[test]
fn dry_run_text_is_exact() {
    let plan = DryRunPlan {
        dry_run: true,
        branch: "b".to_string(),
        base_branch: "main".to_string(),
        worktree_path: "/w/b".to_string(),
        repo_name: "r".to_string(),
        hooks: None,
    };
    assert_eq!(
        plan.to_text(),
        "Dry run \u{2014} no changes will be made\n\n  Branch:    b\n  Base:      main\n  Worktree:  /w/b\n  Hooks:     (none)\n"
    );
}

#[test]
fn ahead_behind_and_dirty_formats() {
    assert_eq!(format_ahead_behind(Some(3), Some(1)), "+3/-1");
    assert_eq!(format_ahead_behind(Some(0), Some(0)), "+0/-0");
    assert_eq!(format_ahead_behind(None, Some(1)), "-");
    assert_eq!(format_ahead_behind(None, None), "-");
    assert_eq!(format_dirty(0), "clean");
    assert_eq!(format_dirty(5), "~5");
    assert_eq!(format_dirty(120), "~120");
}

fn entry(name: &str, managed: bool) -> ListEntry {
    ListEntry {
        name: name.to_string(),
        branch: format!("b/{name}"),
        path: format!("/wt/{name}"),
        base_branch: None,
        managed,
        tags: vec!["wip".to_string()],
    }
}

#[test]
fn worktree_json_porcelain_fields() {
    let e = entry("x", true);
    let item = build_worktree_json(&e, GitStatus { ahead: Some(2), behind: Some(0), dirty: 3 });
    assert_eq!(item.status, "~3");
    assert_eq!(item.tags, vec!["wip".to_string()]);
    assert_eq!(item.porcelain_fields().join(":"), "x:b/x:/wt/x:~3:2:0:3:true");
    let plain = build_worktree_json(&entry("y", false), GitStatus { ahead: None, behind: None, dirty: 0 });
    assert_eq!(plain.porcelain_fields().join(":"), "y:b/y:/wt/y:clean:-:-:0:false");
}

#[test]
fn merge_keeps_managed_first_and_adds_unmanaged() {
    let managed = vec![entry("a", true)];
    let git = vec![
        GitWorktreeEntry { name: "main".into(), path: "/repo".into(), branch: Some("main".into()), is_main: true },
        GitWorktreeEntry { name: "a".into(), path: "/wt/a".into(), branch: Some("b/a".into()), is_main: false },
        GitWorktreeEntry { name: "z".into(), path: "/wt/z".into(), branch: None, is_main: false },
    ];
    let merged = merge_entries(managed, git, &vec!["/wt/a".to_string()]);
    let names: Vec<&str> = merged.iter().map(|e| e.name.as_str()).collect();
    assert_eq!(names, vec!["a", "main", "z"]);
    assert!(merged[0].managed);
    assert!(!merged[1].managed);
    assert_eq!(merged[2].branch, "");
    assert!(merged[2].tags.is_empty());
}
