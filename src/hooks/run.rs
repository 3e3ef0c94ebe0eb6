//! The run step of a hook: commands run one after another, and the first one
//! that exits with a non-zero code stops the step.
use vstd::prelude::*;

verus! {

/// What one command of the run step did.
#[derive(Debug, Clone)]
pub struct CommandOutput {
    /// The command line that was run.
    pub command: String,
    /// What it wrote to standard output.
    pub stdout: String,
    /// What it wrote to standard error.
    pub stderr: String,
    /// Its exit code.
    pub exit_code: i32,
}

/// The commands of a run step that ran, in order.
#[derive(Debug, Clone)]
pub struct RunResult {
    pub executed: Vec<CommandOutput>,
}

/// A run step stopped by a command that exited with a non-zero code; the
/// results hold every command that ran, the failing one last.
#[derive(Debug)]
pub struct RunStepError {
    pub command: String,
    pub exit_code: i32,
    pub results: RunResult,
}

impl RunStepError {
    /// A one-line description of the failure.
    pub fn message(&self) -> (r: String)
        ensures
            r@ == seq!['c', 'o', 'm', 'm', 'a', 'n', 'd', ' '] + self.command@ + " exited with code "@
                + crate::text::signed_decimal(self.exit_code as int),
    {
        let mut s = String::from_str("command ");
        crate::text::append_str(&mut s, self.command.as_str());
        crate::text::append_str(&mut s, " exited with code ");
        let code = crate::text::i64_to_decimal(self.exit_code as i64);
        crate::text::append_str(&mut s, code.as_str());
        proof {
            reveal_strlit("command ");
        }
        s
    }
}

/// `executed` is what a run of `commands` can have produced so far: the
/// commands ran in order, and every one but the last exited with code zero.
pub open spec fn run_progress(commands: Seq<String>, executed: Seq<CommandOutput>) -> bool {
    &&& executed.len() <= commands.len()
    &&& forall|i: int| 0 <= i < executed.len() ==> (#[trigger] executed[i]).command@ == commands[i]@
    &&& forall|i: int| 0 <= i < executed.len() - 1 ==> (#[trigger] executed[i]).exit_code == 0
}

/// The last command that ran exited with a non-zero code.
pub open spec fn stopped(executed: Seq<CommandOutput>) -> bool {
    executed.len() > 0 && executed.last().exit_code != 0
}

/// The index of the command to run next, if any: none after a failure or
/// after the last command.
pub open spec fn next_index(commands: Seq<String>, executed: Seq<CommandOutput>) -> Option<nat> {
    if stopped(executed) || executed.len() >= commands.len() {
        None
    } else {
        Some(executed.len())
    }
}

/// The index of the command to run next, given what ran so far.
pub fn next_command(commands: &Vec<String>, executed: &Vec<CommandOutput>) -> (r: Option<usize>)
    requires
        run_progress(commands@, executed@),
    ensures
        match r {
            Some(i) => next_index(commands@, executed@) == Some(i as nat),
            None => next_index(commands@, executed@) is None,
        },
{
    let n = executed.len();
    if n > 0 && executed[n - 1].exit_code != 0 {
        None
    } else if n >= commands.len() {
        None
    } else {
        Some(n)
    }
}

/// The outcome of a run step that has nothing left to run: the failure of its
/// last command, or all that ran.
pub fn finish_run(executed: Vec<CommandOutput>) -> (r: Result<RunResult, RunStepError>)
    ensures
        match r {
            Ok(res) => !stopped(executed@) && res.executed@ == executed@,
            Err(e) => stopped(executed@) && e.command == executed@.last().command && e.exit_code
                == executed@.last().exit_code && e.results.executed@ == executed@,
        },
{
    let n = executed.len();
    if n > 0 && executed[n - 1].exit_code != 0 {
        let command = executed[n - 1].command.clone();
        let exit_code = executed[n - 1].exit_code;
        Err(RunStepError { command, exit_code, results: RunResult { executed } })
    } else {
        Ok(RunResult { executed })
    }
}

/// Once a command has failed, no later command runs, and the step fails with
/// that command and its exit code, holding all commands that ran, the failing
/// one last: for a failure at position `k`, exactly `k + 1` results.
pub proof fn fail_fast(commands: Seq<String>, executed: Seq<CommandOutput>)
    requires
        run_progress(commands, executed),
        stopped(executed),
    ensures
        next_index(commands, executed) is None,
        executed.last().command@ == commands[executed.len() - 1]@,
        forall|i: int| 0 <= i < executed.len() - 1 ==> (#[trigger] executed[i]).exit_code == 0,
{
}

/// A run in which every command exits with code zero runs them all, in order.
pub proof fn all_succeed_run_all(commands: Seq<String>, executed: Seq<CommandOutput>)
    requires
        run_progress(commands, executed),
        !stopped(executed),
        next_index(commands, executed) is None,
    ensures
        executed.len() == commands.len(),
        forall|i: int| 0 <= i < executed.len() ==> (#[trigger] executed[i]).command@ == commands[i]@
            && executed[i].exit_code == 0,
{
}

} // verus!
