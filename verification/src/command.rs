//! Subprocess-backed actions are split in two: the verified half plans a
//! command and judges its outcome; an unverified adapter only launches the
//! planned command and reports back what it observed.

use vstd::prelude::*;

use crate::action::ActionOutput;
use crate::errors::ActionError;

verus! {

/// A subprocess for the adapter to launch: the program and its arguments, in
/// order.
#[derive(Debug, PartialEq, Eq)]
pub struct CommandSpec {
    pub program: String,
    pub args: Vec<String>,
}

/// What the adapter observed of one launched subprocess.
#[derive(Debug, PartialEq, Eq)]
pub enum CommandOutcome {
    /// The process could not be launched at all.
    SpawnError,
    /// The process ran to completion: whether it exited successfully, and its
    /// captured output streams.
    Completed { success: bool, stdout: String, stderr: String },
}

/// The diagnostic detail reported when a program cannot be launched.
pub open spec fn spawn_detail_view(program: Seq<char>) -> Seq<char> {
    "Failed to run "@ + program + " (internal error)"@
}

/// The diagnostic detail preserving a failed subprocess's captured streams for
/// the operator.
pub open spec fn stream_detail_view(stderr: Seq<char>, stdout: Seq<char>) -> Seq<char> {
    "-- STDERR --\n\n"@ + stderr + "\n\n-- STDOUT --\n\n"@ + stdout
}

/// The failure reported when `program` could not be launched. `summary` is the
/// calling action's user-facing summary of what it was trying to do.
pub fn spawn_failure(summary: &str, program: &str) -> (e: ActionError)
    ensures
        e matches ActionError::ActionFailed(s, d) && s@ == summary@ && d@ == spawn_detail_view(
            program@,
        ),
{
    let mut d = String::from_str("Failed to run ");
    d.append(program);
    d.append(" (internal error)");
    ActionError::ActionFailed(String::from_str(summary), d)
}

/// The failure reported when a subprocess exited unsuccessfully, preserving
/// its captured standard error and standard output.
pub fn stream_failure(summary: &str, stderr: &str, stdout: &str) -> (e: ActionError)
    ensures
        e matches ActionError::ActionFailed(s, d) && s@ == summary@ && d@ == stream_detail_view(
            stderr@,
            stdout@,
        ),
{
    let mut d = String::from_str("-- STDERR --\n\n");
    d.append(stderr);
    d.append("\n\n-- STDOUT --\n\n");
    d.append(stdout);
    ActionError::ActionFailed(String::from_str(summary), d)
}

/// The verdict owed on one executed command that is expected to produce no
/// output: success yields nothing, a failed exit preserves the captured
/// streams, and a launch failure names the program that could not run.
pub open spec fn command_verdict_post(
    summary: Seq<char>,
    program: Seq<char>,
    outcome: CommandOutcome,
    r: Result<Option<ActionOutput>, ActionError>,
) -> bool {
    match outcome {
        CommandOutcome::SpawnError => r matches Err(ActionError::ActionFailed(s, d)) && s@
            == summary && d@ == spawn_detail_view(program),
        CommandOutcome::Completed { success, stdout, stderr } => if success {
            r == Ok::<Option<ActionOutput>, ActionError>(None)
        } else {
            r matches Err(ActionError::ActionFailed(s, d)) && s@ == summary && d@
                == stream_detail_view(stderr@, stdout@)
        },
    }
}

/// Judge one executed command that is expected to produce no output.
pub fn command_verdict(summary: &str, program: &str, outcome: &CommandOutcome) -> (r: Result<
    Option<ActionOutput>,
    ActionError,
>)
    ensures
        command_verdict_post(summary@, program@, *outcome, r),
{
    match outcome {
        CommandOutcome::SpawnError => Err(spawn_failure(summary, program)),
        CommandOutcome::Completed { success, stdout, stderr } => {
            if *success {
                Ok(None)
            } else {
                Err(stream_failure(summary, stderr.as_str(), stdout.as_str()))
            }
        },
    }
}

} // verus!
