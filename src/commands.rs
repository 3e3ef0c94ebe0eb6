//! The commands: each ties the git adapter, the store and the configuration
//! together for one user action.
use vstd::prelude::*;

use crate::git::GitError;
use crate::state::StoreError;
use crate::text::append_str;

pub mod create;
pub mod init;
pub mod list;
pub mod remove;
pub mod switch;
pub mod tag;

verus! {

/// Why a command failed.
#[derive(Debug)]
pub enum CommandError {
    Git(GitError),
    Store(StoreError),
    /// The worktree path template could not be rendered.
    Template(minijinja::Error),
    /// The repository has no record in the store.
    RepoNotTracked { path: String },
    /// No live worktree has this name or branch.
    WorktreeNotFound { identifier: String },
    /// A tag argument that starts with neither `+` nor `-`.
    InvalidTagArgument { arg: String },
    /// A tag argument with nothing after its sign.
    EmptyTagName { arg: String },
}

impl CommandError {
    /// A one-line description of the failure.
    pub fn message(&self) -> (r: String)
        ensures
            match *self {
                CommandError::Git(e) => crate::git::describes_git_error(e, r@),
                CommandError::Store(e) => crate::state::describes_store_error(e, r@),
                CommandError::Template(_) => r@ == "invalid worktree path template"@,
                CommandError::RepoNotTracked { path } => r@ == "repository not tracked by trench: "@ + path@,
                CommandError::WorktreeNotFound { identifier } => r@ == "worktree not found: "@ + identifier@,
                CommandError::InvalidTagArgument { arg } => r@ == "invalid tag argument '"@ + arg@
                    + "': must start with '+' (add) or '-' (remove)"@,
                CommandError::EmptyTagName { arg } => r@ == "tag name cannot be empty: '"@ + arg@ + "'"@,
            },
    {
        match self {
            CommandError::Git(e) => e.message(),
            CommandError::Store(e) => e.message(),
            CommandError::Template(_) => String::from_str("invalid worktree path template"),
            CommandError::RepoNotTracked { path } => {
                let mut s = String::from_str("repository not tracked by trench: ");
                append_str(&mut s, path.as_str());
                s
            },
            CommandError::WorktreeNotFound { identifier } => {
                let mut s = String::from_str("worktree not found: ");
                append_str(&mut s, identifier.as_str());
                s
            },
            CommandError::InvalidTagArgument { arg } => {
                let mut s = String::from_str("invalid tag argument '");
                append_str(&mut s, arg.as_str());
                append_str(&mut s, "': must start with '+' (add) or '-' (remove)");
                s
            },
            CommandError::EmptyTagName { arg } => {
                let mut s = String::from_str("tag name cannot be empty: '");
                append_str(&mut s, arg.as_str());
                append_str(&mut s, "'");
                s
            },
        }
    }
}

/// Pass a git error on.
pub fn git_err<T>(r: Result<T, GitError>) -> (out: Result<T, CommandError>)
    ensures
        (r is Ok) <==> (out is Ok),
        out matches Ok(v) ==> r == Ok::<T, GitError>(v),
        r matches Err(e) ==> out == Err::<T, CommandError>(CommandError::Git(e)),
{
    match r {
        Ok(v) => Ok(v),
        Err(e) => Err(CommandError::Git(e)),
    }
}

/// Pass a store error on.
pub fn store_err<T>(r: Result<T, StoreError>) -> (out: Result<T, CommandError>)
    ensures
        (r is Ok) <==> (out is Ok),
        out matches Ok(v) ==> r == Ok::<T, StoreError>(v),
        r matches Err(e) ==> out == Err::<T, CommandError>(CommandError::Store(e)),
{
    match r {
        Ok(v) => Ok(v),
        Err(e) => Err(CommandError::Store(e)),
    }
}

} // verus!
