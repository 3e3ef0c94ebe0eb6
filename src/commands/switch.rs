//! The `switch` command.
use vstd::prelude::*;

use super::{git_err, store_err, CommandError};
use crate::paths::{sanitize_branch, sanitized};
use crate::state::{access_update, now, Database, Worktree};

verus! {

/// Where the switch leads.
#[derive(Debug)]
pub struct SwitchResult {
    /// The worktree's path.
    pub path: String,
    /// The worktree's name.
    pub name: String,
}

/// The live worktree named by `identifier` (its name or its branch), trying
/// the sanitized form of `identifier` when it differs and the plain one
/// matched nothing.
pub fn resolve_worktree(db: &Database, repo_id: i64, identifier: &str) -> (r: Result<Worktree, CommandError>)
    ensures
        r matches Ok(wt) ==> wt.repo_id == repo_id && wt.removed_at is None && (wt.name@ == identifier@ || wt.branch@
            == identifier@ || wt.name@ == sanitized(identifier@) || wt.branch@ == sanitized(identifier@)),
        r matches Err(CommandError::WorktreeNotFound { identifier: x }) ==> x@ == identifier@,
{
    match store_err(db.find_worktree_by_identifier(repo_id, identifier))? {
        Some(wt) => Ok(wt),
        None => {
            let s = sanitize_branch(identifier);
            if crate::text::same_text(&s, identifier) {
                return Err(CommandError::WorktreeNotFound { identifier: String::from_str(identifier) });
            }
            match store_err(db.find_worktree_by_identifier(repo_id, s.as_str()))? {
                Some(wt) => Ok(wt),
                None => Err(CommandError::WorktreeNotFound { identifier: String::from_str(identifier) }),
            }
        },
    }
}

/// Switch to a worktree of the repository at `cwd`: record the access time
/// and the current worktree, and return its path and name.
pub fn execute(identifier: &str, cwd: &str, db: &Database) -> (r: Result<SwitchResult, CommandError>)
    ensures
        r matches Ok(res) ==> exists|wt: Worktree| wt.name == res.name && wt.path == res.path && wt.removed_at is None && (
        wt.name@ == identifier@ || wt.branch@ == identifier@ || wt.name@ == sanitized(identifier@) || wt.branch@ == sanitized(
            identifier@,
        )),
        r matches Err(CommandError::WorktreeNotFound { identifier: x }) ==> x@ == identifier@,
{
    let info = git_err(crate::git::discover_repo(cwd))?;
    let repo = match store_err(db.get_repo_by_path(info.path.as_str()))? {
        Some(repo) => repo,
        None => {
            return Err(CommandError::RepoNotTracked { path: info.path });
        },
    };
    let wt = resolve_worktree(db, repo.id, identifier)?;
    let update = access_update(now());
    store_err(db.update_worktree(wt.id, &update))?;
    store_err(db.set_session("current_worktree", wt.name.as_str()))?;
    let ghost found = wt;
    let res = SwitchResult { path: wt.path, name: wt.name };
    assert(found.name == res.name && found.path == res.path);
    Ok(res)
}

} // verus!
