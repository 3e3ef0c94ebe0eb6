//! The version-control adapter: repository discovery, worktree creation with
//! rollback, listing, pruning, and ahead/behind and dirty counts, over git2.
use vstd::prelude::*;

use crate::text::{chars_of, string_from_range};

verus! {

#[verifier::external_type_specification]
#[verifier::external_body]
pub struct ExRepository(git2::Repository);

#[verifier::external_type_specification]
#[verifier::external_body]
pub struct ExGitLibError(git2::Error);

#[verifier::external_type_specification]
#[verifier::external_body]
pub struct ExOid(git2::Oid);

/// Information about a discovered repository.
#[derive(Debug, Clone, PartialEq)]
pub struct RepoInfo {
    pub name: String,
    pub path: String,
    pub remote_url: Option<String>,
    pub default_branch: String,
}

/// A worktree that git knows of: the main one or an additional one.
#[derive(Debug, Clone, PartialEq)]
pub struct GitWorktreeEntry {
    pub name: String,
    pub path: String,
    pub branch: Option<String>,
    pub is_main: bool,
}

/// Errors of the git operations.
#[derive(Debug)]
pub enum GitError {
    NotAGitRepo { path: String },
    BranchAlreadyExists { branch: String },
    RemoteBranchAlreadyExists { branch: String, remote: String },
    BaseBranchNotFound { base: String },
    WorktreeNotFound { name: String },
    RemoteBranchNotFound { branch: String, remote: String },
    Git(git2::Error),
}

/// `text` is the one-line description of `e`.
pub open spec fn describes_git_error(e: GitError, text: Seq<char>) -> bool {
    match e {
        GitError::NotAGitRepo { path } => text == "not a git repository: "@ + path@,
        GitError::BranchAlreadyExists { branch } => text == "branch already exists: "@ + branch@,
        GitError::RemoteBranchAlreadyExists { branch, remote } => text == "Branch '"@ + branch@ + "' already exists on "@
            + remote@ + ". Use a different name."@,
        GitError::BaseBranchNotFound { base } => text == "base branch not found: "@ + base@,
        GitError::WorktreeNotFound { name } => text == "worktree not found: "@ + name@,
        GitError::RemoteBranchNotFound { branch, remote } => text == "remote branch not found: "@ + remote@ + "/"@ + branch@,
        GitError::Git(_) => exists|m: Seq<char>| text == "git error: "@ + m,
    }
}

impl GitError {
    /// A one-line description of the error.
    pub fn message(&self) -> (r: String)
        ensures
            describes_git_error(*self, r@),
    {
        let mut s = String::new();
        match self {
            GitError::NotAGitRepo { path } => {
                crate::text::append_str(&mut s, "not a git repository: ");
                crate::text::append_str(&mut s, path.as_str());
            },
            GitError::BranchAlreadyExists { branch } => {
                crate::text::append_str(&mut s, "branch already exists: ");
                crate::text::append_str(&mut s, branch.as_str());
            },
            GitError::RemoteBranchAlreadyExists { branch, remote } => {
                crate::text::append_str(&mut s, "Branch '");
                crate::text::append_str(&mut s, branch.as_str());
                crate::text::append_str(&mut s, "' already exists on ");
                crate::text::append_str(&mut s, remote.as_str());
                crate::text::append_str(&mut s, ". Use a different name.");
            },
            GitError::BaseBranchNotFound { base } => {
                crate::text::append_str(&mut s, "base branch not found: ");
                crate::text::append_str(&mut s, base.as_str());
            },
            GitError::WorktreeNotFound { name } => {
                crate::text::append_str(&mut s, "worktree not found: ");
                crate::text::append_str(&mut s, name.as_str());
            },
            GitError::RemoteBranchNotFound { branch, remote } => {
                crate::text::append_str(&mut s, "remote branch not found: ");
                crate::text::append_str(&mut s, remote.as_str());
                crate::text::append_str(&mut s, "/");
                crate::text::append_str(&mut s, branch.as_str());
            },
            GitError::Git(e) => {
                crate::text::append_str(&mut s, "git error: ");
                let m = git_error_message(e);
                crate::text::append_str(&mut s, m.as_str());
            },
        }
        s
    }
}

/// Relies on `git2::Error::message`: the library's text for the error.
#[verifier::external_body]
fn git_error_message(e: &git2::Error) -> String {
    e.message().to_string()
}

/// Relies on `git2::Repository::open`: opens the repository at a path.
#[verifier::external_body]
fn open_repository(path: &str) -> Result<git2::Repository, git2::Error> {
    git2::Repository::open(path)
}

/// Relies on `git2::Repository::discover`: finds the repository at or above a path.
#[verifier::external_body]
fn discover_repository(path: &str) -> Result<git2::Repository, git2::Error> {
    git2::Repository::discover(path)
}

/// Relies on `git2::Error::code`: whether the error says that nothing was found.
#[verifier::external_body]
fn is_not_found(e: &git2::Error) -> bool {
    e.code() == git2::ErrorCode::NotFound
}

/// Relies on `git2::Repository::workdir`: the working directory, unless bare.
#[verifier::external_body]
fn workdir_of(repo: &git2::Repository) -> Option<String> {
    repo.workdir().map(|p| p.to_string_lossy().into_owned())
}

/// Relies on `std::path::Path::canonicalize`: the absolute path with links resolved.
#[verifier::external_body]
pub(crate) fn canonical_path(path: &str) -> Option<String> {
    std::path::Path::new(path).canonicalize().ok().map(|p| p.to_string_lossy().into_owned())
}

/// Relies on `git2::Repository::find_remote` and `git2::Remote::url`: the
/// URL of the named remote, if there is one.
#[verifier::external_body]
fn remote_url(repo: &git2::Repository, remote: &str) -> Option<String> {
    repo.find_remote(remote).ok().and_then(|r| r.url().ok().map(String::from))
}

/// Relies on `git2::Repository::head` and `git2::Reference::shorthand`: the
/// short name of what HEAD points at.
#[verifier::external_body]
fn head_shorthand(repo: &git2::Repository) -> Option<String> {
    repo.head().ok().and_then(|r| r.shorthand().ok().map(String::from))
}

/// Relies on `git2::Repository::find_branch`: whether a local (or, with
/// `remote`, a remote-tracking) branch of that name exists.
#[verifier::external_body]
fn branch_exists(repo: &git2::Repository, name: &str, remote: bool) -> bool {
    let kind = if remote { git2::BranchType::Remote } else { git2::BranchType::Local };
    repo.find_branch(name, kind).is_ok()
}

/// Relies on `git2::Remote::fetch` of the named remote with pruning: refreshes
/// its remote-tracking branches when it can; whether it could is returned.
#[verifier::external_body]
fn fetch_pruned(repo: &git2::Repository, remote: &str) -> bool {
    match repo.find_remote(remote) {
        Ok(mut origin) => {
            let mut opts = git2::FetchOptions::new();
            opts.prune(git2::FetchPrune::On);
            origin.fetch(&[] as &[&str], Some(&mut opts), None).is_ok()
        },
        Err(_) => false,
    }
}

/// How looking a branch up for its commit went wrong.
pub enum BranchLookupError {
    /// The branch could not be found.
    Missing(git2::Error),
    /// The branch exists but its commit could not be read.
    Unreadable(git2::Error),
}

/// Relies on `git2::Repository::find_branch` and `git2::Reference::peel_to_commit`:
/// the commit that a branch points at.
#[verifier::external_body]
fn branch_commit(repo: &git2::Repository, name: &str, remote: bool) -> Result<git2::Oid, BranchLookupError> {
    let kind = if remote { git2::BranchType::Remote } else { git2::BranchType::Local };
    let branch = repo.find_branch(name, kind).map_err(BranchLookupError::Missing)?;
    let commit = branch.get().peel_to_commit().map_err(BranchLookupError::Unreadable)?;
    Ok(commit.id())
}

/// Relies on `git2::Repository::find_commit` and `git2::Repository::branch`:
/// creates a local branch at a commit, refusing to overwrite one.
#[verifier::external_body]
fn create_branch(repo: &git2::Repository, name: &str, commit: git2::Oid) -> Result<(), git2::Error> {
    let commit = repo.find_commit(commit)?;
    repo.branch(name, &commit, false)?;
    Ok(())
}

/// Relies on `git2::Repository::worktree`: adds a worktree at `target` that
/// checks out the local branch `name`.
#[verifier::external_body]
fn add_worktree(repo: &git2::Repository, name: &str, target: &str) -> Result<(), git2::Error> {
    let branch = repo.find_branch(name, git2::BranchType::Local)?;
    let mut opts = git2::WorktreeAddOptions::new();
    opts.reference(Some(branch.get()));
    repo.worktree(name, std::path::Path::new(target), Some(&opts))?;
    Ok(())
}

/// Relies on `git2::Branch::delete`: deletes a local branch; whether it did is returned.
#[verifier::external_body]
fn delete_local_branch(repo: &git2::Repository, name: &str) -> bool {
    match repo.find_branch(name, git2::BranchType::Local) {
        Ok(mut b) => b.delete().is_ok(),
        Err(_) => false,
    }
}

/// Relies on `git2::Repository::statuses`, untracked directories recursed:
/// the number of paths that are not clean.
#[verifier::external_body]
fn status_count(repo: &git2::Repository) -> Result<usize, git2::Error> {
    let mut opts = git2::StatusOptions::new();
    opts.include_untracked(true).recurse_untracked_dirs(true);
    Ok(repo.statuses(Some(&mut opts))?.len())
}

/// Relies on `git2::Repository::find_branch` and `git2::Reference::target`:
/// the commit a branch points at directly, if the branch exists.
#[verifier::external_body]
fn branch_target(repo: &git2::Repository, name: &str, remote: bool) -> Option<git2::Oid> {
    let kind = if remote { git2::BranchType::Remote } else { git2::BranchType::Local };
    repo.find_branch(name, kind).ok().and_then(|b| b.get().target())
}

/// Relies on `git2::Branch::upstream`: `None` when the local branch has no
/// upstream, else the upstream's target.
#[verifier::external_body]
fn upstream_target(repo: &git2::Repository, name: &str) -> Option<Option<git2::Oid>> {
    let local = repo.find_branch(name, git2::BranchType::Local).ok()?;
    local.upstream().ok().map(|u| u.get().target())
}

/// Relies on `git2::Repository::graph_ahead_behind`: commits unique to `local`
/// and commits unique to `upstream`.
#[verifier::external_body]
fn graph_ahead_behind(repo: &git2::Repository, local: git2::Oid, upstream: git2::Oid) -> Result<(usize, usize), git2::Error> {
    repo.graph_ahead_behind(local, upstream)
}

/// Relies on `git2::Repository::worktrees`: the names of the additional
/// worktrees (none when they cannot be read).
#[verifier::external_body]
fn worktree_names(repo: &git2::Repository) -> Vec<String> {
    match repo.worktrees() {
        Ok(names) => names.iter().flatten().flatten().map(String::from).collect(),
        Err(_) => Vec::new(),
    }
}

/// Relies on `git2::Repository::find_worktree` and `git2::Worktree::path`.
#[verifier::external_body]
fn worktree_path(repo: &git2::Repository, name: &str) -> Option<String> {
    repo.find_worktree(name).ok().map(|w| w.path().to_string_lossy().into_owned())
}

/// Relies on `git2::Worktree::prune`: drops the bookkeeping of a worktree
/// whose directory is gone (a valid or locked one is kept).
#[verifier::external_body]
fn prune_worktree(repo: &git2::Repository, name: &str) {
    if let Ok(wt) = repo.find_worktree(name) {
        let _ = wt.prune(Some(git2::WorktreePruneOptions::new().working_tree(false).valid(false).locked(false)));
    }
}

/// Relies on `std::path::Path::exists`: whether something is at the path.
#[verifier::external_body]
pub(crate) fn path_exists(path: &str) -> bool {
    std::path::Path::new(path).exists()
}

/// Relies on `git2::Worktree::prune` with the valid, locked and working-tree
/// flags set: deletes the worktree's directory and its bookkeeping.
#[verifier::external_body]
fn prune_worktree_and_directory(repo: &git2::Repository, name: &str) -> Result<(), git2::Error> {
    let wt = repo.find_worktree(name)?;
    wt.prune(Some(git2::WorktreePruneOptions::new().working_tree(true).valid(true).locked(true)))
}

/// Relies on `git2::Remote::push`: pushes one refspec to the named remote.
#[verifier::external_body]
fn push_refspec(repo: &git2::Repository, remote: &str, refspec: &str) -> Result<(), git2::Error> {
    let mut r = repo.find_remote(remote)?;
    r.push(&[refspec], None)
}

/// The remote that new branches are checked against.
pub const ORIGIN: &'static str = "origin";

/// The error for a repository that could not be opened at `path`: an error
/// that says nothing was found becomes `NotAGitRepo`, any other is passed on.
pub fn repo_open_error(not_found: bool, e: git2::Error, path: &str) -> (r: GitError)
    ensures
        not_found ==> (r is NotAGitRepo && r->NotAGitRepo_path@ == path@),
        !not_found ==> r == GitError::Git(e),
{
    if not_found {
        GitError::NotAGitRepo { path: String::from_str(path) }
    } else {
        GitError::Git(e)
    }
}

fn open_error(e: git2::Error, path: &str) -> (r: GitError)
    ensures
        (r is NotAGitRepo) ==> r->NotAGitRepo_path@ == path@,
        r is NotAGitRepo || r is Git,
{
    let not_found = is_not_found(&e);
    repo_open_error(not_found, e, path)
}

fn open_at(path: &str) -> (r: Result<git2::Repository, GitError>)
    ensures
        r matches Err(e) ==> (e is NotAGitRepo && e->NotAGitRepo_path@ == path@) || e is Git,
{
    match open_repository(path) {
        Ok(repo) => Ok(repo),
        Err(e) => Err(open_error(e, path)),
    }
}

/// The last component of a path: what follows its last `/`.
pub open spec fn last_component(path: Seq<char>) -> Seq<char>
    decreases path.len(),
{
    if path.len() == 0 {
        Seq::empty()
    } else if path.last() == '/' {
        Seq::empty()
    } else {
        last_component(path.drop_last()).push(path.last())
    }
}

/// The name of the directory at `path`, or `fallback` when it has none.
pub open spec fn dir_name_or(path: Seq<char>, fallback: Seq<char>) -> Seq<char> {
    if last_component(path).len() == 0 {
        fallback
    } else {
        last_component(path)
    }
}

/// The last component of `path`, or `fallback` when it is empty.
pub fn dir_name(path: &str, fallback: &str) -> (r: String)
    ensures
        r@ == dir_name_or(path@, fallback@),
{
    let chars = chars_of(path);
    let n = chars.len();
    let mut start: usize = n;
    assert(chars@.take(n as int) =~= chars@);
    assert(last_component(chars@) + chars@.subrange(n as int, n as int) =~= last_component(chars@));
    while start > 0 && chars[start - 1] != '/'
        invariant
            n == chars@.len(),
            chars@ == path@,
            start <= n,
            last_component(chars@) == last_component(chars@.take(start as int)) + chars@.subrange(start as int, n as int),
        decreases start,
    {
        let ghost t = chars@.take(start as int);
        assert(t.drop_last() =~= chars@.take(start as int - 1));
        assert(chars@.subrange(start as int - 1, n as int) =~= seq![t.last()] + chars@.subrange(start as int, n as int));
        assert(last_component(t) == last_component(t.drop_last()).push(t.last()));
        assert(last_component(t.drop_last()).push(t.last()) + chars@.subrange(start as int, n as int) =~= last_component(chars@.take(start as int - 1)) + chars@.subrange(start as int - 1, n as int));
        start = start - 1;
    }
    proof {
        assert(chars@.take(n as int) =~= chars@);
        let t = chars@.take(start as int);
        assert(last_component(t) =~= Seq::<char>::empty());
        assert(last_component(chars@) =~= chars@.subrange(start as int, n as int));
    }
    if start == n {
        String::from_str(fallback)
    } else {
        string_from_range(&chars, start, n)
    }
}

/// The default base when HEAD names no branch.
pub const FALLBACK_BRANCH: &'static str = "main";

/// The information of a repository from its canonical root, its remote URL
/// and HEAD's short name: the root's directory name (`repo` when it has none)
/// and HEAD's branch as default base (`main` when HEAD names none).
pub fn repo_info(root: String, remote_url: Option<String>, head: Option<String>) -> (r: RepoInfo)
    ensures
        r.path == root,
        r.name@ == dir_name_or(root@, "repo"@),
        r.remote_url == remote_url,
        r.default_branch@ == (match head {
            Some(h) => h@,
            None => FALLBACK_BRANCH@,
        }),
{
    let name = dir_name(root.as_str(), "repo");
    let default_branch = match head {
        Some(b) => b,
        None => String::from_str(FALLBACK_BRANCH),
    };
    RepoInfo { name, path: root, remote_url, default_branch }
}

/// Discover the repository at or above `path`: its canonical root, the name of
/// that directory, the `origin` URL if any, and HEAD's branch as the default
/// base (`main` when HEAD has none).
pub fn discover_repo(path: &str) -> (r: Result<RepoInfo, GitError>)
    ensures
        r matches Ok(info) ==> info.name@ == dir_name_or(info.path@, "repo"@),
        r matches Err(e) ==> (e is NotAGitRepo && e->NotAGitRepo_path@ == path@) || e is Git,
{
    let repo = match discover_repository(path) {
        Ok(repo) => repo,
        Err(e) => {
            return Err(open_error(e, path));
        },
    };
    let workdir = match workdir_of(&repo) {
        Some(w) => w,
        None => {
            return Err(GitError::NotAGitRepo { path: String::from_str(path) });
        },
    };
    let root = match canonical_path(workdir.as_str()) {
        Some(c) => c,
        None => {
            return Err(GitError::NotAGitRepo { path: String::from_str(path) });
        },
    };
    let url = remote_url(&repo, ORIGIN);
    let head = head_shorthand(&repo);
    Ok(repo_info(root, url, head))
}

/// The steps of worktree creation, in the order in which they can run.
#[derive(Debug, Clone, Copy, PartialEq, Eq, Structural)]
pub enum CreateStage {
    /// Look for a local branch of the new name.
    CheckLocal,
    /// Refresh the remote-tracking branches, best effort.
    Fetch,
    /// Look for `origin/<name>`.
    CheckRemote,
    /// Resolve the base as a local branch.
    LocalBase,
    /// Resolve the base as `origin/<base>`.
    RemoteBase,
    /// Create the new branch at the base commit.
    MakeBranch,
    /// Add the worktree on the new branch.
    AddWorktree,
    /// Delete the branch that was created for a worktree that could not be added.
    DeleteBranch,
}

/// How a step went.
#[derive(Debug, Clone, Copy, PartialEq, Eq, Structural)]
pub enum StepEvent {
    /// A lookup found what it looked for, or an action succeeded.
    Succeeded,
    /// A lookup found nothing.
    Missing,
    /// The step failed otherwise.
    Failed,
}

/// How creation ends.
#[derive(Debug, Clone, Copy, PartialEq, Eq, Structural)]
pub enum CreateOutcome {
    Created,
    BranchExists,
    RemoteBranchExists,
    BaseMissing,
    /// A step failed; whatever it had created has been undone.
    StepFailed,
}

/// What comes after a step.
#[derive(Debug, Clone, Copy, PartialEq, Eq, Structural)]
pub enum CreateNext {
    Run(CreateStage),
    Stop(CreateOutcome),
}

/// The protocol of worktree creation: the step or the end that follows a step
/// and how it went. A local clash stops before the fetch; a failed worktree
/// add leads to deleting the new branch, whatever that deletion gives.
pub open spec fn create_transition(stage: CreateStage, ev: StepEvent) -> CreateNext {
    match stage {
        CreateStage::CheckLocal => if ev == StepEvent::Succeeded {
            CreateNext::Stop(CreateOutcome::BranchExists)
        } else {
            CreateNext::Run(CreateStage::Fetch)
        },
        CreateStage::Fetch => CreateNext::Run(CreateStage::CheckRemote),
        CreateStage::CheckRemote => if ev == StepEvent::Succeeded {
            CreateNext::Stop(CreateOutcome::RemoteBranchExists)
        } else {
            CreateNext::Run(CreateStage::LocalBase)
        },
        CreateStage::LocalBase => match ev {
            StepEvent::Succeeded => CreateNext::Run(CreateStage::MakeBranch),
            StepEvent::Missing => CreateNext::Run(CreateStage::RemoteBase),
            StepEvent::Failed => CreateNext::Stop(CreateOutcome::StepFailed),
        },
        CreateStage::RemoteBase => match ev {
            StepEvent::Succeeded => CreateNext::Run(CreateStage::MakeBranch),
            StepEvent::Missing => CreateNext::Stop(CreateOutcome::BaseMissing),
            StepEvent::Failed => CreateNext::Stop(CreateOutcome::StepFailed),
        },
        CreateStage::MakeBranch => if ev == StepEvent::Succeeded {
            CreateNext::Run(CreateStage::AddWorktree)
        } else {
            CreateNext::Stop(CreateOutcome::StepFailed)
        },
        CreateStage::AddWorktree => if ev == StepEvent::Succeeded {
            CreateNext::Stop(CreateOutcome::Created)
        } else {
            CreateNext::Run(CreateStage::DeleteBranch)
        },
        CreateStage::DeleteBranch => CreateNext::Stop(CreateOutcome::StepFailed),
    }
}

/// How many steps can still follow a stage at most.
pub open spec fn stage_rank(stage: CreateStage) -> nat {
    match stage {
        CreateStage::CheckLocal => 8,
        CreateStage::Fetch => 7,
        CreateStage::CheckRemote => 6,
        CreateStage::LocalBase => 5,
        CreateStage::RemoteBase => 4,
        CreateStage::MakeBranch => 3,
        CreateStage::AddWorktree => 2,
        CreateStage::DeleteBranch => 1,
    }
}

/// Whether a stage changes the repository.
pub open spec fn mutates(stage: CreateStage) -> bool {
    stage == CreateStage::MakeBranch || stage == CreateStage::AddWorktree || stage == CreateStage::DeleteBranch
}

/// Whether a stage looks at or refreshes the remote.
pub open spec fn touches_remote(stage: CreateStage) -> bool {
    stage == CreateStage::Fetch || stage == CreateStage::CheckRemote || stage == CreateStage::RemoteBase
}

/// The step or end that follows `stage` when it went as `ev`.
pub fn next_create_stage(stage: CreateStage, ev: StepEvent) -> (r: CreateNext)
    ensures
        r == create_transition(stage, ev),
        r matches CreateNext::Run(s) ==> stage_rank(s) < stage_rank(stage),
{
    match stage {
        CreateStage::CheckLocal => if ev == StepEvent::Succeeded {
            CreateNext::Stop(CreateOutcome::BranchExists)
        } else {
            CreateNext::Run(CreateStage::Fetch)
        },
        CreateStage::Fetch => CreateNext::Run(CreateStage::CheckRemote),
        CreateStage::CheckRemote => if ev == StepEvent::Succeeded {
            CreateNext::Stop(CreateOutcome::RemoteBranchExists)
        } else {
            CreateNext::Run(CreateStage::LocalBase)
        },
        CreateStage::LocalBase => match ev {
            StepEvent::Succeeded => CreateNext::Run(CreateStage::MakeBranch),
            StepEvent::Missing => CreateNext::Run(CreateStage::RemoteBase),
            StepEvent::Failed => CreateNext::Stop(CreateOutcome::StepFailed),
        },
        CreateStage::RemoteBase => match ev {
            StepEvent::Succeeded => CreateNext::Run(CreateStage::MakeBranch),
            StepEvent::Missing => CreateNext::Stop(CreateOutcome::BaseMissing),
            StepEvent::Failed => CreateNext::Stop(CreateOutcome::StepFailed),
        },
        CreateStage::MakeBranch => if ev == StepEvent::Succeeded {
            CreateNext::Run(CreateStage::AddWorktree)
        } else {
            CreateNext::Stop(CreateOutcome::StepFailed)
        },
        CreateStage::AddWorktree => if ev == StepEvent::Succeeded {
            CreateNext::Stop(CreateOutcome::Created)
        } else {
            CreateNext::Run(CreateStage::DeleteBranch)
        },
        CreateStage::DeleteBranch => CreateNext::Stop(CreateOutcome::StepFailed),
    }
}

/// The stages that a run of the protocol goes through for the given events,
/// starting at `stage`, one event per stage.
pub open spec fn stages_run(stage: CreateStage, events: Seq<StepEvent>) -> Seq<CreateStage>
    decreases events.len(),
{
    if events.len() == 0 {
        seq![stage]
    } else {
        match create_transition(stage, events[0]) {
            CreateNext::Run(s) => seq![stage] + stages_run(s, events.skip(1)),
            CreateNext::Stop(_) => seq![stage],
        }
    }
}

/// Rollback: whenever adding the worktree fails after the branch was created,
/// the next step deletes that branch, and creation then ends failed whatever
/// the deletion gave; creation never ends `Created` after a failed add.
pub proof fn rollback_after_failed_add(delete_went: StepEvent)
    ensures
        create_transition(CreateStage::AddWorktree, StepEvent::Failed) == CreateNext::Run(CreateStage::DeleteBranch),
        create_transition(CreateStage::AddWorktree, StepEvent::Missing) == CreateNext::Run(CreateStage::DeleteBranch),
        create_transition(CreateStage::DeleteBranch, delete_went) == CreateNext::Stop(CreateOutcome::StepFailed),
        forall|s: CreateStage, e: StepEvent|
            create_transition(s, e) == CreateNext::Stop(CreateOutcome::Created) ==> s == CreateStage::AddWorktree && e == StepEvent::Succeeded,
{
}

/// Conflict precedence: when the branch exists locally, creation runs no step
/// but that first check (no fetch, no remote lookup, no change) and ends with
/// `BranchExists`; a clash on `origin` alone is found only after the fetch.
pub proof fn local_conflict_first(events: Seq<StepEvent>)
    requires
        events.len() > 0,
        events[0] == StepEvent::Succeeded,
    ensures
        stages_run(CreateStage::CheckLocal, events) == seq![CreateStage::CheckLocal],
        forall|i: int| 0 <= i < stages_run(CreateStage::CheckLocal, events).len() ==> !touches_remote(
            #[trigger] stages_run(CreateStage::CheckLocal, events)[i],
        ) && !mutates(stages_run(CreateStage::CheckLocal, events)[i]),
        create_transition(CreateStage::CheckLocal, events[0]) == CreateNext::Stop(CreateOutcome::BranchExists),
        create_transition(CreateStage::CheckLocal, StepEvent::Missing) == CreateNext::Run(CreateStage::Fetch),
        create_transition(CreateStage::Fetch, StepEvent::Failed) == CreateNext::Run(CreateStage::CheckRemote),
        create_transition(CreateStage::CheckRemote, StepEvent::Succeeded) == CreateNext::Stop(CreateOutcome::RemoteBranchExists),
{
}

/// Where the protocol stands after the given events, one per step, starting
/// at the local check.
pub open spec fn walk(events: Seq<StepEvent>) -> CreateNext
    decreases events.len(),
{
    if events.len() == 0 {
        CreateNext::Run(CreateStage::CheckLocal)
    } else {
        match walk(events.drop_last()) {
            CreateNext::Run(s) => create_transition(s, events.last()),
            CreateNext::Stop(o) => CreateNext::Stop(o),
        }
    }
}

/// The result that creation gives for the way it ended.
pub open spec fn outcome_result(o: CreateOutcome, r: Result<(), GitError>, branch: Seq<char>, base: Seq<char>) -> bool {
    match o {
        CreateOutcome::Created => r is Ok,
        CreateOutcome::BranchExists => match r {
            Err(GitError::BranchAlreadyExists { branch: b }) => b@ == branch,
            _ => false,
        },
        CreateOutcome::RemoteBranchExists => match r {
            Err(GitError::RemoteBranchAlreadyExists { branch: b, remote: m }) => b@ == branch && m@ == ORIGIN@,
            _ => false,
        },
        CreateOutcome::BaseMissing => match r {
            Err(GitError::BaseBranchNotFound { base: b }) => b@ == base,
            _ => false,
        },
        CreateOutcome::StepFailed => r matches Err(GitError::Git(_)),
    }
}

/// Create a worktree at `target` on a new branch `branch` made from `base`
/// (a local branch, else `origin/<base>`). A local branch of that name stops
/// it before anything else; then `origin` is fetched, best effort, and a
/// remote branch of that name stops it; if the worktree cannot be added, the
/// new branch is deleted before the error is returned. Unless the repository
/// cannot be opened, the result is the one `outcome_result` gives for where
/// the protocol `create_transition` stopped.
pub fn create_worktree(repo_path: &str, branch: &str, base: &str, target: &str) -> (r: Result<(), GitError>)
    ensures
        r matches Err(GitError::NotAGitRepo { path }) ==> path@ == repo_path@,
        r matches Err(GitError::BranchAlreadyExists { branch: b }) ==> b@ == branch@,
        r matches Err(GitError::RemoteBranchAlreadyExists { branch: b, remote }) ==> b@ == branch@ && remote@ == ORIGIN@,
        r matches Err(GitError::BaseBranchNotFound { base: b }) ==> b@ == base@,
        !(r matches Err(GitError::WorktreeNotFound { .. })),
        (r matches Err(GitError::NotAGitRepo { .. })) || (r matches Err(GitError::Git(_))) || (exists|events: Seq<StepEvent>| #[trigger] walk(events) is Stop
            && outcome_result(walk(events)->Stop_0, r, branch@, base@)),
{
    let repo = open_at(repo_path)?;
    let ghost mut events: Seq<StepEvent> = Seq::empty();
    let remote_name = tracking_name(ORIGIN, branch);
    let remote_base = tracking_name(ORIGIN, base);
    let mut stage = CreateStage::CheckLocal;
    let mut base_commit: Option<git2::Oid> = None;
    let mut failure: Option<git2::Error> = None;
    loop
        invariant
            stage == CreateStage::DeleteBranch ==> failure is Some,
            stage == CreateStage::MakeBranch ==> base_commit is Some,
            walk(events) == CreateNext::Run(stage),
        decreases stage_rank(stage),
    {
        let ev = match stage {
            CreateStage::CheckLocal => if branch_exists(&repo, branch, false) {
                StepEvent::Succeeded
            } else {
                StepEvent::Missing
            },
            CreateStage::Fetch => {
                let _ = fetch_pruned(&repo, ORIGIN);
                StepEvent::Succeeded
            },
            CreateStage::CheckRemote => if branch_exists(&repo, remote_name.as_str(), true) {
                StepEvent::Succeeded
            } else {
                StepEvent::Missing
            },
            CreateStage::LocalBase => match branch_commit(&repo, base, false) {
                Ok(oid) => {
                    base_commit = Some(oid);
                    StepEvent::Succeeded
                },
                Err(BranchLookupError::Missing(_)) => StepEvent::Missing,
                Err(BranchLookupError::Unreadable(e)) => {
                    failure = Some(e);
                    StepEvent::Failed
                },
            },
            CreateStage::RemoteBase => match branch_commit(&repo, remote_base.as_str(), true) {
                Ok(oid) => {
                    base_commit = Some(oid);
                    StepEvent::Succeeded
                },
                Err(BranchLookupError::Missing(e)) => if is_not_found(&e) {
                    StepEvent::Missing
                } else {
                    failure = Some(e);
                    StepEvent::Failed
                },
                Err(BranchLookupError::Unreadable(e)) => {
                    failure = Some(e);
                    StepEvent::Failed
                },
            },
            CreateStage::MakeBranch => {
                let commit = match base_commit {
                    Some(c) => c,
                    None => vstd::pervasive::unreached(),
                };
                base_commit = None;
                match create_branch(&repo, branch, commit) {
                    Ok(()) => StepEvent::Succeeded,
                    Err(e) => {
                        failure = Some(e);
                        StepEvent::Failed
                    },
                }
            },
            CreateStage::AddWorktree => match add_worktree(&repo, branch, target) {
                Ok(()) => StepEvent::Succeeded,
                Err(e) => {
                    failure = Some(e);
                    StepEvent::Failed
                },
            },
            CreateStage::DeleteBranch => {
                let _ = delete_local_branch(&repo, branch);
                StepEvent::Succeeded
            },
        };
        assert(ev == StepEvent::Failed ==> failure is Some);
        proof {
            assert(events.push(ev).drop_last() =~= events);
            events = events.push(ev);
        }
        match next_create_stage(stage, ev) {
            CreateNext::Run(s) => {
                stage = s;
            },
            CreateNext::Stop(outcome) => {
                return match outcome {
                    CreateOutcome::Created => Ok(()),
                    CreateOutcome::BranchExists => Err(GitError::BranchAlreadyExists { branch: String::from_str(branch) }),
                    CreateOutcome::RemoteBranchExists => Err(
                        GitError::RemoteBranchAlreadyExists { branch: String::from_str(branch), remote: String::from_str(ORIGIN) },
                    ),
                    CreateOutcome::BaseMissing => Err(GitError::BaseBranchNotFound { base: String::from_str(base) }),
                    CreateOutcome::StepFailed => match failure {
                        Some(e) => Err(GitError::Git(e)),
                        None => vstd::pervasive::unreached(),
                    },
                };
            },
        }
    }
}

/// The remote-tracking name of `branch` on `remote`: `<remote>/<branch>`.
pub fn tracking_name(remote: &str, branch: &str) -> (r: String)
    ensures
        r@ == remote@ + seq!['/'] + branch@,
{
    let mut s = String::from_str(remote);
    crate::text::push_char(&mut s, '/');
    crate::text::append_str(&mut s, branch);
    s
}

/// The reference to count against: the upstream when the branch has one
/// (`Some(t)`, whose target `t` may be missing), else, when a base is given,
/// the base as a local branch, else as a remote-tracking branch; `None` when
/// there is none.
pub fn pick_reference<T>(upstream: Option<Option<T>>, base_given: bool, local_base: Option<T>, remote_base: Option<T>) -> (r: Option<T>)
    ensures
        r == (match upstream {
            Some(t) => t,
            None => if base_given {
                if local_base is Some {
                    local_base
                } else {
                    remote_base
                }
            } else {
                None
            },
        }),
{
    match upstream {
        Some(t) => t,
        None => if base_given {
            match local_base {
                Some(l) => Some(l),
                None => remote_base,
            }
        } else {
            None
        },
    }
}

/// The two commits to count between: the branch's and the reference's; `None`
/// when either is missing, and then there is nothing to count.
pub fn count_between<T>(local: Option<T>, reference: Option<T>) -> (r: Option<(T, T)>)
    ensures
        r is Some <==> (local is Some && reference is Some),
        r matches Some((a, b)) ==> local == Some(a) && reference == Some(b),
{
    match (local, reference) {
        (Some(a), Some(b)) => Some((a, b)),
        _ => None,
    }
}

/// The number of paths of the worktree at `worktree_path` that are modified,
/// added, deleted, renamed or untracked (untracked directories recursed).
pub fn dirty_count(worktree_path: &str) -> (r: Result<usize, GitError>)
    ensures
        r matches Err(e) ==> (e is NotAGitRepo && e->NotAGitRepo_path@ == worktree_path@) || e is Git,
{
    let repo = open_at(worktree_path)?;
    match status_count(&repo) {
        Ok(n) => Ok(n),
        Err(e) => Err(GitError::Git(e)),
    }
}

/// Commits ahead of and behind the reference of `branch`: its upstream, else
/// `base_branch` as a local branch, else `origin/<base_branch>`. `None` when
/// there is no such branch or no reference point.
pub fn ahead_behind(repo_path: &str, branch: &str, base_branch: Option<&str>) -> (r: Result<Option<(usize, usize)>, GitError>)
    ensures
        r matches Err(e) ==> (e is NotAGitRepo && e->NotAGitRepo_path@ == repo_path@) || e is Git,
{
    let repo = open_at(repo_path)?;
    let local = branch_target(&repo, branch, false);
    let upstream = upstream_target(&repo, branch);
    let (base_given, local_base, remote_base) = match base_branch {
        Some(b) => {
            let l = branch_target(&repo, b, false);
            let rb = if l.is_none() {
                let remote = tracking_name(ORIGIN, b);
                branch_target(&repo, remote.as_str(), true)
            } else {
                None
            };
            (true, l, rb)
        },
        None => (false, None, None),
    };
    let reference = pick_reference(upstream, base_given, local_base, remote_base);
    match count_between(local, reference) {
        Some((a, b)) => match graph_ahead_behind(&repo, a, b) {
            Ok(counts) => Ok(Some(counts)),
            Err(e) => Err(GitError::Git(e)),
        },
        None => Ok(None),
    }
}

/// A path as listed: its canonical form when it has one, else as git gave it.
pub open spec fn listed_path(raw: String, canonical: Option<String>) -> String {
    match canonical {
        Some(c) => c,
        None => raw,
    }
}

/// The entry of the main worktree: named after its directory (`main` when
/// that has no name).
pub fn main_entry(raw_path: String, canonical: Option<String>, branch: Option<String>) -> (r: GitWorktreeEntry)
    ensures
        r.path == listed_path(raw_path, canonical),
        r.name@ == dir_name_or(r.path@, "main"@),
        r.branch == branch,
        r.is_main,
{
    let path = match canonical {
        Some(c) => c,
        None => raw_path,
    };
    let name = dir_name(path.as_str(), "main");
    GitWorktreeEntry { name, path, branch, is_main: true }
}

/// The entry of an additional worktree, under the name git registered it by.
pub fn worktree_entry(name: String, raw_path: String, canonical: Option<String>, branch: Option<String>) -> (r: GitWorktreeEntry)
    ensures
        r.name == name,
        r.path == listed_path(raw_path, canonical),
        r.branch == branch,
        !r.is_main,
{
    let path = match canonical {
        Some(c) => c,
        None => raw_path,
    };
    GitWorktreeEntry { name, path, branch, is_main: false }
}

/// The main worktree, first, followed by every additional worktree that git
/// knows of, in git's order.
pub fn list_worktrees(repo_path: &str) -> (r: Result<Vec<GitWorktreeEntry>, GitError>)
    ensures
        r matches Ok(entries) ==> forall|i: int| 0 <= i < entries@.len() && (#[trigger] entries@[i]).is_main ==> i == 0
            && entries@[i].name@ == dir_name_or(entries@[i].path@, "main"@),
        r matches Err(e) ==> (e is NotAGitRepo && e->NotAGitRepo_path@ == repo_path@) || e is Git,
{
    let repo = open_at(repo_path)?;
    let mut entries: Vec<GitWorktreeEntry> = Vec::new();
    match workdir_of(&repo) {
        Some(workdir) => {
            let branch = head_shorthand(&repo);
            let canonical = canonical_path(workdir.as_str());
            entries.push(main_entry(workdir, canonical, branch));
        },
        None => {},
    }
    let names = worktree_names(&repo);
    let mut i: usize = 0;
    while i < names.len()
        invariant
            forall|k: int| 0 <= k < entries@.len() && (#[trigger] entries@[k]).is_main ==> k == 0
                && entries@[k].name@ == dir_name_or(entries@[k].path@, "main"@),
            i <= names@.len(),
        decreases names@.len() - i,
    {
        let wt_name = &names[i];
        match worktree_path(&repo, wt_name.as_str()) {
            Some(p) => {
                let canonical = canonical_path(p.as_str());
                let branch = match open_repository(match &canonical {
                    Some(c) => c.as_str(),
                    None => p.as_str(),
                }) {
                    Ok(wt_repo) => head_shorthand(&wt_repo),
                    Err(_) => None,
                };
                entries.push(worktree_entry(wt_name.clone(), p, canonical, branch));
            },
            None => {},
        }
        i = i + 1;
    }
    Ok(entries)
}

/// Drop the bookkeeping of every worktree of the repository whose directory
/// is gone; branches are left alone.
pub fn prune_worktrees(repo_path: &str) -> (r: Result<(), GitError>)
    ensures
        r matches Err(e) ==> (e is NotAGitRepo && e->NotAGitRepo_path@ == repo_path@) || e is Git,
{
    let repo = open_at(repo_path)?;
    let names = worktree_names(&repo);
    let mut i: usize = 0;
    while i < names.len()
        invariant
            i <= names@.len(),
        decreases names@.len() - i,
    {
        prune_worktree(&repo, names[i].as_str());
        i = i + 1;
    }
    Ok(())
}

/// The position of the first path that is `target`, if any.
pub fn position_of_path(paths: &Vec<Option<String>>, target: &str) -> (r: Option<usize>)
    ensures
        match r {
            Some(i) => i < paths@.len() && (paths@[i as int] matches Some(p) && p@ == target@),
            None => forall|k: int| 0 <= k < paths@.len() ==> !(#[trigger] paths@[k] matches Some(p) && p@ == target@),
        },
{
    let mut i: usize = 0;
    while i < paths.len()
        invariant
            i <= paths@.len(),
            forall|k: int| 0 <= k < i ==> !(#[trigger] paths@[k] matches Some(p) && p@ == target@),
        decreases paths@.len() - i,
    {
        match &paths[i] {
            Some(p) => if crate::text::same_text(p, target) {
                return Some(i);
            },
            None => {},
        }
        i = i + 1;
    }
    None
}

/// The registered worktree whose directory is `target` (both canonical), if any.
fn worktree_named_at(repo: &git2::Repository, target: &str) -> (r: Option<String>) {
    let names = worktree_names(repo);
    let mut paths: Vec<Option<String>> = Vec::new();
    let mut i: usize = 0;
    while i < names.len()
        invariant
            i <= names@.len(),
            paths@.len() == i,
        decreases names@.len() - i,
    {
        let listed = match worktree_path(repo, names[i].as_str()) {
            Some(p) => match canonical_path(p.as_str()) {
                Some(c) => Some(c),
                None => Some(p),
            },
            None => None,
        };
        paths.push(listed);
        i = i + 1;
    }
    match position_of_path(&paths, target) {
        Some(k) => Some(names[k].clone()),
        None => None,
    }
}

/// The first check of a removal: a path with nothing at it is `WorktreeNotFound`.
pub fn removal_precheck(present: bool, worktree_path: &str) -> (r: Result<(), GitError>)
    ensures
        (r is Ok) <==> present,
        r matches Err(e) ==> e is WorktreeNotFound && e->WorktreeNotFound_name@ == worktree_path@,
{
    if present {
        Ok(())
    } else {
        Err(GitError::WorktreeNotFound { name: String::from_str(worktree_path) })
    }
}

/// What a removal did, or leaves to the caller.
#[derive(Debug, PartialEq, Eq)]
pub enum Removal {
    /// git removed the worktree's directory and its bookkeeping.
    Removed,
    /// git knows no worktree at the path: the caller deletes the directory
    /// tree at `path`, then calls `prune_worktrees`.
    DeleteDirectory { path: String },
}

/// What to do for the registered worktree found at the path, if any: git
/// removes a registered one; any other directory is left to the caller.
pub fn removal_step(registered: bool, worktree_path: &str) -> (r: Removal)
    ensures
        registered ==> r == Removal::Removed,
        !registered ==> (r matches Removal::DeleteDirectory { path } && path@ == worktree_path@),
{
    if registered {
        Removal::Removed
    } else {
        Removal::DeleteDirectory { path: String::from_str(worktree_path) }
    }
}

/// Remove the worktree at `worktree_path`. A path with nothing at it gives
/// `WorktreeNotFound`, and nothing else does. A worktree that git has
/// registered there is removed by git, directory and bookkeeping; any other
/// directory there is handed back to be deleted by the caller, who then
/// prunes with `prune_worktrees`. The branch is kept.
pub fn remove_worktree(repo_path: &str, worktree_path: &str) -> (r: Result<Removal, GitError>)
    ensures
        r matches Err(GitError::WorktreeNotFound { name }) ==> name@ == worktree_path@,
        r matches Err(GitError::NotAGitRepo { path }) ==> path@ == repo_path@,
        r matches Err(e) ==> e is WorktreeNotFound || e is NotAGitRepo || e is Git,
        r matches Ok(Removal::DeleteDirectory { path }) ==> path@ == worktree_path@,
{
    removal_precheck(path_exists(worktree_path), worktree_path)?;
    let repo = open_at(repo_path)?;
    let target = match canonical_path(worktree_path) {
        Some(c) => c,
        None => String::from_str(worktree_path),
    };
    let registered = worktree_named_at(&repo, target.as_str());
    let step = removal_step(registered.is_some(), worktree_path);
    match registered {
        Some(name) => match prune_worktree_and_directory(&repo, name.as_str()) {
            Ok(()) => {},
            Err(e) => {
                return Err(GitError::Git(e));
            },
        },
        None => {
            return Ok(step);
        },
    }
    let names = worktree_names(&repo);
    let mut i: usize = 0;
    while i < names.len()
        invariant
            i <= names@.len(),
        decreases names@.len() - i,
    {
        prune_worktree(&repo, names[i].as_str());
        i = i + 1;
    }
    Ok(step)
}

/// The refspec that deletes `branch` on a remote: `:refs/heads/<branch>`.
pub fn deletion_refspec(branch: &str) -> (r: String)
    ensures
        r@ == ":refs/heads/"@ + branch@,
{
    let mut s = String::from_str(":refs/heads/");
    crate::text::append_str(&mut s, branch);
    s
}

/// Delete `branch` on `remote`; `RemoteBranchNotFound` when no
/// remote-tracking branch `<remote>/<branch>` is known.
pub fn delete_remote_branch(repo_path: &str, remote: &str, branch: &str) -> (r: Result<(), GitError>)
    ensures
        r matches Err(GitError::RemoteBranchNotFound { branch: b, remote: m }) ==> b@ == branch@ && m@ == remote@,
        r matches Err(GitError::NotAGitRepo { path }) ==> path@ == repo_path@,
{
    let repo = open_at(repo_path)?;
    let mut tracking = String::from_str(remote);
    crate::text::append_str(&mut tracking, "/");
    crate::text::append_str(&mut tracking, branch);
    if !branch_exists(&repo, tracking.as_str(), true) {
        return Err(GitError::RemoteBranchNotFound { branch: String::from_str(branch), remote: String::from_str(remote) });
    }
    let refspec = deletion_refspec(branch);
    match push_refspec(&repo, remote, refspec.as_str()) {
        Ok(()) => Ok(()),
        Err(e) => Err(GitError::Git(e)),
    }
}

} // verus!
