//! Lifecycle hooks: which hook an event fires, the environment handed to its
//! processes, and the order of its steps.
use vstd::prelude::*;

use crate::config::{HookDef, HooksConfig};

pub mod copy;
pub mod run;

verus! {

/// The six lifecycle events that can fire a hook.
#[derive(Debug, Clone, Copy, PartialEq, Eq, Structural)]
pub enum HookEvent {
    PreCreate,
    PostCreate,
    PreSync,
    PostSync,
    PreRemove,
    PostRemove,
}

/// The name of an event, as hooks see it.
pub open spec fn event_name(e: HookEvent) -> Seq<char> {
    match e {
        HookEvent::PreCreate => "pre_create"@,
        HookEvent::PostCreate => "post_create"@,
        HookEvent::PreSync => "pre_sync"@,
        HookEvent::PostSync => "post_sync"@,
        HookEvent::PreRemove => "pre_remove"@,
        HookEvent::PostRemove => "post_remove"@,
    }
}

impl HookEvent {
    pub fn as_str(&self) -> (r: &'static str)
        ensures
            r@ == event_name(*self),
    {
        match self {
            HookEvent::PreCreate => "pre_create",
            HookEvent::PostCreate => "post_create",
            HookEvent::PreSync => "pre_sync",
            HookEvent::PostSync => "post_sync",
            HookEvent::PreRemove => "pre_remove",
            HookEvent::PostRemove => "post_remove",
        }
    }

    /// Whether the event fires before its operation, so that a failure of its
    /// hook cancels the operation.
    pub fn is_pre(&self) -> (r: bool)
        ensures
            r == (*self == HookEvent::PreCreate || *self == HookEvent::PreSync || *self
                == HookEvent::PreRemove),
    {
        match self {
            HookEvent::PreCreate | HookEvent::PreSync | HookEvent::PreRemove => true,
            _ => false,
        }
    }
}

/// What the hook processes learn of the operation that fired them.
pub struct HookEnvContext {
    pub worktree_path: String,
    pub worktree_name: String,
    pub branch: String,
    pub repo_name: String,
    pub repo_path: String,
    pub base_branch: String,
}

/// The hook configured for an event, if any.
pub open spec fn hook_for(hooks: HooksConfig, e: HookEvent) -> Option<HookDef> {
    match e {
        HookEvent::PreCreate => hooks.pre_create,
        HookEvent::PostCreate => hooks.post_create,
        HookEvent::PreSync => hooks.pre_sync,
        HookEvent::PostSync => hooks.post_sync,
        HookEvent::PreRemove => hooks.pre_remove,
        HookEvent::PostRemove => hooks.post_remove,
    }
}

/// The hook configured for `event`, if any.
pub fn get_hook_config<'a>(hooks: &'a HooksConfig, event: &HookEvent) -> (r: Option<&'a HookDef>)
    ensures
        match r {
            Some(h) => hook_for(*hooks, *event) == Some(*h),
            None => hook_for(*hooks, *event) is None,
        },
{
    match event {
        HookEvent::PreCreate => hooks.pre_create.as_ref(),
        HookEvent::PostCreate => hooks.post_create.as_ref(),
        HookEvent::PreSync => hooks.pre_sync.as_ref(),
        HookEvent::PostSync => hooks.post_sync.as_ref(),
        HookEvent::PreRemove => hooks.pre_remove.as_ref(),
        HookEvent::PostRemove => hooks.post_remove.as_ref(),
    }
}

/// The names of the variables handed to hook processes, in order.
pub open spec fn env_names() -> Seq<Seq<char>> {
    seq![
        "TRENCH_WORKTREE_PATH"@,
        "TRENCH_WORKTREE_NAME"@,
        "TRENCH_BRANCH"@,
        "TRENCH_REPO_NAME"@,
        "TRENCH_REPO_PATH"@,
        "TRENCH_BASE_BRANCH"@,
        "TRENCH_EVENT"@,
    ]
}

/// The values of those variables for a context and an event, in the same order.
pub open spec fn env_values(ctx: HookEnvContext, e: HookEvent) -> Seq<Seq<char>> {
    seq![
        ctx.worktree_path@,
        ctx.worktree_name@,
        ctx.branch@,
        ctx.repo_name@,
        ctx.repo_path@,
        ctx.base_branch@,
        event_name(e),
    ]
}

fn env_pair(name: &str, value: &str) -> (r: (String, String))
    ensures
        r.0@ == name@,
        r.1@ == value@,
{
    (String::from_str(name), String::from_str(value))
}

/// The variables added to the environment of every hook process: one pair of
/// name and value for each of the seven names, in order.
pub fn build_env(ctx: &HookEnvContext, event: &HookEvent) -> (r: Vec<(String, String)>)
    ensures
        r@.len() == 7,
        forall|i: int| 0 <= i < 7 ==> (#[trigger] r@[i]).0@ == env_names()[i] && r@[i].1@ == env_values(*ctx, *event)[i],
{
    let mut env: Vec<(String, String)> = Vec::new();
    env.push(env_pair("TRENCH_WORKTREE_PATH", ctx.worktree_path.as_str()));
    env.push(env_pair("TRENCH_WORKTREE_NAME", ctx.worktree_name.as_str()));
    env.push(env_pair("TRENCH_BRANCH", ctx.branch.as_str()));
    env.push(env_pair("TRENCH_REPO_NAME", ctx.repo_name.as_str()));
    env.push(env_pair("TRENCH_REPO_PATH", ctx.repo_path.as_str()));
    env.push(env_pair("TRENCH_BASE_BRANCH", ctx.base_branch.as_str()));
    env.push(env_pair("TRENCH_EVENT", event.as_str()));
    env
}

/// The steps of a hook; they run in this order.
#[derive(Debug, Clone, Copy, PartialEq, Eq, Structural)]
pub enum HookStep {
    Copy,
    Run,
    Shell,
}

/// The steps that a hook has configured, in the order in which they run.
pub open spec fn steps_of(hook: HookDef) -> Seq<HookStep> {
    (if hook.copy is Some { seq![HookStep::Copy] } else { Seq::empty() })
        + (if hook.run is Some { seq![HookStep::Run] } else { Seq::empty() })
        + (if hook.shell is Some { seq![HookStep::Shell] } else { Seq::empty() })
}

/// The configured steps of `hook`: copy, then run, then shell, each only where set.
pub fn hook_steps(hook: &HookDef) -> (r: Vec<HookStep>)
    ensures
        r@ == steps_of(*hook),
{
    let mut steps: Vec<HookStep> = Vec::new();
    if hook.copy.is_some() {
        steps.push(HookStep::Copy);
    }
    if hook.run.is_some() {
        steps.push(HookStep::Run);
    }
    if hook.shell.is_some() {
        steps.push(HookStep::Shell);
    }
    assert(steps@ =~= steps_of(*hook));
    steps
}

/// Which of the steps of a hook still run after `done` of them succeeded and
/// the next one ended with `succeeded`: none once a step has failed.
pub open spec fn steps_left(steps: Seq<HookStep>, done: nat, succeeded: bool) -> Seq<HookStep> {
    if !succeeded || done >= steps.len() - 1 {
        Seq::empty()
    } else {
        steps.subrange(done + 1 as int, steps.len() as int)
    }
}

/// The step to run after step `done` (counted from zero) ended with
/// `succeeded`; `None` when the hook is over, which it is after a failure.
pub fn next_hook_step(steps: &Vec<HookStep>, done: usize, succeeded: bool) -> (r: Option<HookStep>)
    requires
        done < steps@.len(),
    ensures
        (r is None) <==> steps_left(steps@, done as nat, succeeded).len() == 0,
        r matches Some(s) ==> s == steps_left(steps@, done as nat, succeeded)[0],
{
    if !succeeded || done >= steps.len() - 1 {
        None
    } else {
        Some(steps[done + 1])
    }
}

} // verus!
