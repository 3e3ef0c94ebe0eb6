//! The `init` command: the commented project configuration it writes, and
//! when it may write it.
use vstd::prelude::*;

verus! {

/// Why `init` refused.
#[derive(Debug, Clone, Copy, PartialEq, Eq, Structural)]
pub enum InitError {
    /// The project file exists and overwriting was not asked for.
    FileAlreadyExists,
}

impl InitError {
    pub fn message(&self) -> (r: String)
        ensures
            r@ == "`.trench.toml` already exists. Use `--force` to overwrite."@,
    {
        String::from_str("`.trench.toml` already exists. Use `--force` to overwrite.")
    }
}

/// The file name of the project configuration, at the repository root.
pub const PROJECT_CONFIG_FILENAME: &'static str = ".trench.toml";

/// Whether `init` may write the project file: always with `force`, else only
/// when there is none.
pub fn check_init(present: bool, force: bool) -> (r: Result<(), InitError>)
    ensures
        (r is Ok) <==> (!present || force),
{
    if present && !force {
        Err(InitError::FileAlreadyExists)
    } else {
        Ok(())
    }
}

/// The commented project configuration that `init` writes.
pub const SCAFFOLD: &'static str = "# trench \u{2014} project configuration
# Uncomment and modify the sections you need.
# This file is intended to be committed to version control.
#
# Configuration precedence:
#   CLI flags > .trench.toml > ~/.config/trench/config.toml > defaults

# [ui]
# theme = \"default\"
# date_format = \"%Y-%m-%d %H:%M\"
# show_ahead_behind = true
# show_dirty_count = true

# [git]
# default_base = \"main\"          # Base branch for new worktrees
# auto_prune = false              # Prune stale remote-tracking branches
# fetch_on_open = true            # Fetch from remote when opening a worktree

# [worktrees]
# root = \"{{ repo }}/{{ branch | sanitize }}\"   # Path template for worktree dirs
# scan = []                                      # Extra directories to scan for worktrees

# Six lifecycle hooks: pre_create, post_create, pre_sync, post_sync,
# pre_remove, post_remove.
#
# Each hook supports:
#   copy         \u{2014} glob patterns to copy from repo root (prefix with ! to exclude)
#   run          \u{2014} commands to execute sequentially
#   shell        \u{2014} a shell script to run
#   timeout_secs \u{2014} max seconds for run + shell combined
#
# Execution order within a hook: copy \u{2192} run \u{2192} shell
# If any step fails (non-zero exit), the hook stops.
#
# Pre-hooks cancel the operation on failure.
# Project hooks (.trench.toml) completely replace global hooks \u{2014} no merging.

# [hooks.post_create]
# copy = [\".env*\", \"!.env.example\"]
# run = [\"bun install\"]
# timeout_secs = 300

# [hooks.pre_remove]
# shell = \"pkill -f 'next dev' || true\"
";

} // verus!
