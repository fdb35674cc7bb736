//! Writing resolved contents to a fresh temporary file. The verified half
//! refuses rollback, resolves the contents and turns the written file's path
//! into the action's output; the adapter picks the fresh name and writes.

use vstd::prelude::*;

use crate::action::{ActionIdentity, ActionOutput, Operation, OutputVal, Probe};
use crate::errors::{echoed_failure, ActionError};
use crate::resolve::{resolve_text, resolve_text_spec, text_result_view, ActionInput};
use crate::store::OutputStore;

verus! {

/// Writes its resolved contents to a fresh temporary file and publishes the
/// file's path as its text output.
pub struct TempFile {
    pub contents: ActionInput<String>,
}

/// What the adapter observed of one write.
#[derive(Debug, PartialEq, Eq)]
pub enum FileOutcome {
    /// The write failed; the filesystem's message.
    WriteError(String),
    /// The file was written; its path.
    Written(String),
}

impl TempFile {
    pub fn new(contents: ActionInput<String>) -> (r: Self)
        ensures
            r.contents == contents,
    {
        TempFile { contents }
    }

    /// The probe: a fresh file is wanted on every run, and the file is not
    /// tracked for undo, so rollback is unsupported.
    pub open spec fn probe_post(r: Result<Probe, ActionError>) -> bool {
        r == Ok::<Probe, ActionError>(Probe { needs_run: true, can_rollback: false })
    }

    pub fn probe(&self) -> (r: Result<Probe, ActionError>)
        ensures
            Self::probe_post(r),
    {
        Ok(Probe { needs_run: true, can_rollback: false })
    }

    /// Everything planning the write promises: rollback is refused outright —
    /// the probe reported it unsupported — and a perform resolves the contents
    /// to write.
    pub open spec fn run_request_post(
        self,
        m: Map<ActionIdentity, OutputVal>,
        op: Operation,
        r: Result<String, ActionError>,
    ) -> bool {
        &&& op == Operation::Rollback ==> r == Err::<String, ActionError>(
            ActionError::OperationNotSupported,
        )
        &&& op == Operation::Perform ==> text_result_view(r) == resolve_text_spec(self.contents, m)
    }

    /// Plan the write: the contents for the adapter to put into a fresh file.
    pub fn run_request(&self, store: &OutputStore, op: Operation) -> (r: Result<
        String,
        ActionError,
    >)
        ensures
            self.run_request_post(store@, op, r),
    {
        if matches!(op, Operation::Rollback) {
            return Err(ActionError::OperationNotSupported);
        }
        resolve_text(&self.contents, store)
    }

    /// The verdict owed on the adapter's write: the fresh file's path becomes
    /// the action's text output; a failed write echoes the filesystem's
    /// message.
    pub open spec fn run_verdict_post(
        outcome: FileOutcome,
        r: Result<Option<ActionOutput>, ActionError>,
    ) -> bool {
        match outcome {
            FileOutcome::WriteError(m) => r matches Err(ActionError::ActionFailed(s, d)) && s@
                == "Failed to write to file: "@ + m@ && d@ == "Failed to write to file: "@ + m@,
            FileOutcome::Written(p) => r matches Ok(Some(out)) && out@ == OutputVal::Text(p@),
        }
    }

    /// Judge the adapter's write.
    pub fn run_verdict(&self, outcome: &FileOutcome) -> (r: Result<
        Option<ActionOutput>,
        ActionError,
    >)
        ensures
            Self::run_verdict_post(*outcome, r),
    {
        match outcome {
            FileOutcome::WriteError(m) => Err(
                echoed_failure("Failed to write to file: ", m.as_str()),
            ),
            FileOutcome::Written(p) => Ok(Some(ActionOutput::Text(p.clone()))),
        }
    }

    /// The human-readable label.
    pub fn display_name(&self) -> (r: String)
        ensures
            r@ == "TempFile"@,
    {
        String::from_str("TempFile")
    }
}

/// Probing a temporary-file write is repeatable and pure: the probe reads no
/// evidence and borrows nothing mutably, so any two of its verdicts are the
/// same `Probe` value.
pub proof fn lemma_temp_file_probe_repeatable(
    r1: Result<Probe, ActionError>,
    r2: Result<Probe, ActionError>,
)
    requires
        TempFile::probe_post(r1),
        TempFile::probe_post(r2),
    ensures
        r1 == r2,
{
}

/// A rollback demanded of a temporary-file write is refused, not silently
/// ignored: every probe verdict reports `can_rollback == false`, and every
/// answer of the planning step to the rollback direction is
/// `OperationNotSupported`, given before anything is resolved or written.
pub proof fn lemma_temp_file_rollback_refused(
    a: TempFile,
    m: Map<ActionIdentity, OutputVal>,
    pr: Result<Probe, ActionError>,
    rr: Result<String, ActionError>,
)
    requires
        TempFile::probe_post(pr),
        a.run_request_post(m, Operation::Rollback, rr),
    ensures
        pr matches Ok(p) && !p.can_rollback,
        rr == Err::<String, ActionError>(ActionError::OperationNotSupported),
{
}

} // verus!
