//! The `remove` command.
use vstd::prelude::*;

use super::switch::resolve_worktree;
use super::{git_err, store_err, CommandError};
use crate::git::{GitError, Removal};
use crate::paths::sanitized;
use crate::state::{now, removal_update, Database, Worktree};

verus! {

/// What a removal did.
#[derive(Debug)]
pub struct RemoveResult {
    /// The name of the removed worktree.
    pub name: String,
    /// Whether the branch was also deleted on `origin`.
    pub pruned_remote: bool,
    /// A directory that git did not know as a worktree: the caller deletes it
    /// and then prunes the repository's worktrees.
    pub directory_to_delete: Option<String>,
}

/// Remove a worktree of the repository at `cwd`: its directory goes (if still
/// there), its record is marked removed and a `removed` event is logged. With
/// `prune`, its branch is also deleted on `origin`; a branch missing there is
/// no error (`pruned_remote` is then false).
pub fn execute(identifier: &str, cwd: &str, db: &Database, prune: bool) -> (r: Result<RemoveResult, CommandError>)
    ensures
        r matches Ok(res) ==> (res.pruned_remote ==> prune),
        r matches Ok(res) ==> (res.directory_to_delete matches Some(d) ==> exists|wt: Worktree| wt.path@ == d@ && wt.name == res.name),
        r matches Ok(res) ==> exists|wt: Worktree| wt.name == res.name && wt.removed_at is None && (wt.name@ == identifier@
            || wt.branch@ == identifier@ || wt.name@ == sanitized(identifier@) || wt.branch@ == sanitized(identifier@)),
        r matches Err(CommandError::WorktreeNotFound { identifier: x }) ==> x@ == identifier@,
{
    let info = git_err(crate::git::discover_repo(cwd))?;
    let repo = match store_err(db.get_repo_by_path(info.path.as_str()))? {
        Some(repo) => repo,
        None => {
            return Err(CommandError::RepoNotTracked { path: info.path });
        },
    };
    let wt = resolve_worktree(db, repo.id, identifier)?;
    let directory_to_delete = if crate::git::path_exists(wt.path.as_str()) {
        match git_err(crate::git::remove_worktree(info.path.as_str(), wt.path.as_str()))? {
            Removal::Removed => None,
            Removal::DeleteDirectory { path } => Some(path),
        }
    } else {
        None
    };
    let update = removal_update(now());
    store_err(db.update_worktree(wt.id, &update))?;
    store_err(db.insert_event(repo.id, Some(wt.id), "removed", None))?;
    let mut pruned_remote = false;
    if prune {
        match crate::git::delete_remote_branch(info.path.as_str(), "origin", wt.branch.as_str()) {
            Ok(()) => {
                pruned_remote = true;
            },
            Err(GitError::RemoteBranchNotFound { .. }) => {},
            Err(e) => {
                return Err(CommandError::Git(e));
            },
        }
    }
    let ghost found = wt;
    let res = RemoveResult { name: wt.name, pruned_remote, directory_to_delete };
    assert(found.name == res.name);
    Ok(res)
}

} // verus!
