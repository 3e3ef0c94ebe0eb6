//! The `create` command and its dry run.
use vstd::prelude::*;

use super::{git_err, store_err, CommandError};
use crate::config::{same_opt_hooks, HookDef, HooksConfig};
use crate::git::GitError;
use crate::paths::{join_path, joined_path, render_worktree_path, rendered_path, sanitize_branch};
use crate::state::Database;
use crate::text::{append_str, join, joined, views};

verus! {

/// What `create` would do, shown by a dry run.
#[derive(Debug)]
pub struct DryRunPlan {
    /// Always true: this is a preview.
    pub dry_run: bool,
    pub branch: String,
    pub base_branch: String,
    pub worktree_path: String,
    pub repo_name: String,
    pub hooks: Option<HooksConfig>,
}

/// The lines that describe a hook's copy, run and shell settings.
pub open spec fn hook_def_text(h: HookDef) -> Seq<char> {
    (match h.copy {
        Some(c) => "      copy: "@ + joined(views(c@), ", "@) + "\n"@,
        None => Seq::empty(),
    }) + (match h.run {
        Some(r) => "      run:  "@ + joined(views(r@), ", "@) + "\n"@,
        None => Seq::empty(),
    }) + (match h.shell {
        Some(s) => "      shell: "@ + s@ + "\n"@,
        None => Seq::empty(),
    })
}

/// The text of a hook under its title, or nothing when it is not set.
pub open spec fn titled_hook_text(title: Seq<char>, h: Option<HookDef>) -> Seq<char> {
    match h {
        Some(d) => title + hook_def_text(d),
        None => Seq::empty(),
    }
}

/// The readable form of a plan.
pub open spec fn plan_text(p: DryRunPlan) -> Seq<char> {
    "Dry run \u{2014} no changes will be made\n\n"@ + "  Branch:    "@ + p.branch@ + "\n"@ + "  Base:      "@
        + p.base_branch@ + "\n"@ + "  Worktree:  "@ + p.worktree_path@ + "\n"@ + match p.hooks {
        Some(h) => "  Hooks:\n"@ + titled_hook_text("    pre_create:\n"@, h.pre_create) + titled_hook_text(
            "    post_create:\n"@,
            h.post_create,
        ),
        None => "  Hooks:     (none)\n"@,
    }
}

fn hook_def_lines(h: &HookDef) -> (r: String)
    ensures
        r@ == hook_def_text(*h),
{
    let mut s = String::new();
    match &h.copy {
        Some(c) => {
            append_str(&mut s, "      copy: ");
            let j = join(c, ", ");
            append_str(&mut s, j.as_str());
            append_str(&mut s, "\n");
        },
        None => {},
    }
    match &h.run {
        Some(r) => {
            append_str(&mut s, "      run:  ");
            let j = join(r, ", ");
            append_str(&mut s, j.as_str());
            append_str(&mut s, "\n");
        },
        None => {},
    }
    match &h.shell {
        Some(sh) => {
            append_str(&mut s, "      shell: ");
            append_str(&mut s, sh.as_str());
            append_str(&mut s, "\n");
        },
        None => {},
    }
    assert(s@ =~= hook_def_text(*h));
    s
}

fn titled_hook_lines(out: &mut String, title: &str, h: &Option<HookDef>)
    ensures
        final(out)@ == old(out)@ + titled_hook_text(title@, *h),
{
    match h {
        Some(d) => {
            append_str(out, title);
            let lines = hook_def_lines(d);
            append_str(out, lines.as_str());
            assert(final(out)@ =~= old(out)@ + titled_hook_text(title@, *h));
        },
        None => {
            assert(old(out)@ + titled_hook_text(title@, *h) =~= old(out)@);
        },
    }
}

impl DryRunPlan {
    /// The plan as readable text: branch, base, path and the create hooks.
    pub fn to_text(&self) -> (r: String)
        ensures
            r@ == plan_text(*self),
    {
        let mut s = String::from_str("Dry run \u{2014} no changes will be made\n\n");
        append_str(&mut s, "  Branch:    ");
        append_str(&mut s, self.branch.as_str());
        append_str(&mut s, "\n");
        append_str(&mut s, "  Base:      ");
        append_str(&mut s, self.base_branch.as_str());
        append_str(&mut s, "\n");
        append_str(&mut s, "  Worktree:  ");
        append_str(&mut s, self.worktree_path.as_str());
        append_str(&mut s, "\n");
        match &self.hooks {
            Some(h) => {
                append_str(&mut s, "  Hooks:\n");
                titled_hook_lines(&mut s, "    pre_create:\n", &h.pre_create);
                titled_hook_lines(&mut s, "    post_create:\n", &h.post_create);
            },
            None => {
                append_str(&mut s, "  Hooks:     (none)\n");
            },
        }
        assert(s@ =~= plan_text(*self));
        s
    }
}

/// The base to create from: the one asked for, else the repository's default.
pub open spec fn chosen_base(from: Option<&str>, default_branch: Seq<char>) -> Seq<char> {
    match from {
        Some(f) => f@,
        None => default_branch,
    }
}

fn base_of(from: Option<&str>, default_branch: &String) -> (r: String)
    ensures
        r@ == chosen_base(from, default_branch@),
{
    match from {
        Some(f) => String::from_str(f),
        None => default_branch.clone(),
    }
}

/// What `create` would do for `branch` in the repository at `cwd`, without
/// doing any of it: the base, the worktree path under `worktree_root` from
/// `template`, and the hooks.
pub fn execute_dry_run(
    branch: &str,
    from: Option<&str>,
    cwd: &str,
    worktree_root: &str,
    template: &str,
    hooks: Option<&HooksConfig>,
) -> (r: Result<DryRunPlan, CommandError>)
    ensures
        r matches Ok(plan) ==> plan.dry_run && plan.branch@ == branch@ && plan.worktree_path@ == joined_path(
            worktree_root@,
            rendered_path(template@, plan.repo_name@, branch@),
        ) && (from matches Some(f) ==> plan.base_branch@ == f@) && same_opt_hooks(
            plan.hooks,
            match hooks {
                Some(h) => Some(*h),
                None => None,
            },
        ),
        r matches Err(e) ==> e is Git || e is Template,
{
    let info = git_err(crate::git::discover_repo(cwd))?;
    let relative = match render_worktree_path(template, info.name.as_str(), branch) {
        Ok(p) => p,
        Err(e) => {
            return Err(CommandError::Template(e));
        },
    };
    let worktree_path = join_path(worktree_root, relative.as_str());
    let base_branch = base_of(from, &info.default_branch);
    let hooks = match hooks {
        Some(h) => Some(h.duplicate()),
        None => None,
    };
    Ok(DryRunPlan { dry_run: true, branch: String::from_str(branch), base_branch, worktree_path, repo_name: info.name, hooks })
}

/// Create a worktree for `branch` in the repository at `cwd`: the git branch
/// and worktree (from `from`, else the repository's default branch), then the
/// records: the repository's (made on first use), the worktree's under its
/// sanitized name, and a `created` event. Returns the worktree's path. The
/// parent directory of that path must exist.
pub fn execute(branch: &str, from: Option<&str>, cwd: &str, worktree_root: &str, template: &str, db: &Database) -> (r: Result<String, CommandError>)
    ensures
        r matches Ok(p) ==> exists|repo_name: Seq<char>| p@ == joined_path(worktree_root@, rendered_path(template@, repo_name, branch@)),
        r matches Err(CommandError::Git(GitError::BranchAlreadyExists { branch: b })) ==> b@ == branch@,
        r matches Err(CommandError::Git(GitError::RemoteBranchAlreadyExists { branch: b, .. })) ==> b@ == branch@,
        r matches Err(CommandError::Git(GitError::BaseBranchNotFound { base: b })) ==> from matches Some(f) ==> b@ == f@,
{
    let info = git_err(crate::git::discover_repo(cwd))?;
    let relative = match render_worktree_path(template, info.name.as_str(), branch) {
        Ok(p) => p,
        Err(e) => {
            return Err(CommandError::Template(e));
        },
    };
    let worktree_path = join_path(worktree_root, relative.as_str());
    let base = base_of(from, &info.default_branch);
    git_err(crate::git::create_worktree(info.path.as_str(), branch, base.as_str(), worktree_path.as_str()))?;
    let repo = match store_err(db.get_repo_by_path(info.path.as_str()))? {
        Some(repo) => repo,
        None => store_err(db.insert_repo(info.name.as_str(), info.path.as_str(), Some(info.default_branch.as_str())))?,
    };
    let name = sanitize_branch(branch);
    let wt = store_err(db.insert_worktree(repo.id, name.as_str(), branch, worktree_path.as_str(), Some(base.as_str())))?;
    store_err(db.insert_event(repo.id, Some(wt.id), "created", None))?;
    assert(worktree_path@ == joined_path(worktree_root@, rendered_path(template@, info.name@, branch@)));
    Ok(worktree_path)
}

} // verus!
