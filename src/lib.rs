//! Management of parallel git worktrees: naming, the worktree lifecycle over
//! git, a small store of ownership records, and lifecycle hooks.
pub mod commands;
pub mod config;
pub mod git;
pub mod hooks;
pub mod output;
pub mod paths;
pub mod state;
pub mod text;
pub mod tui;
