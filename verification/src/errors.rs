//! The failure taxonomy shared by every action.

use vstd::prelude::*;

verus! {

/// Everything an action can report instead of finishing its work.
///
/// All contract methods return one of these rather than terminating the
/// process; retry policy belongs to the external driver. `NoActionReturn` and
/// `TypeConversionMismatch` point at a wiring mistake by the caller (wrong
/// ordering or wrong type), `StateNotLoaded` and `OperationNotSupported` at a
/// mistake in how the graph was put together; none of the four is retryable.
#[derive(Debug, Clone, PartialEq, Eq)]
pub enum ActionError {
    /// A referenced dependency has not (yet) produced an output.
    NoActionReturn,
    /// A stored output's kind does not match the requested type.
    TypeConversionMismatch,
    /// A required shared-state entry was never registered.
    StateNotLoaded,
    /// The requested direction of `run` is not supported by this action.
    OperationNotSupported,
    /// The underlying side effect did not succeed. The first field is a
    /// user-facing summary, the second carries diagnostic detail such as
    /// captured standard error and standard output.
    ActionFailed(String, String),
}

/// A failure whose summary and detail are the same message: a fixed prefix
/// plus what the underlying layer reported.
pub fn echoed_failure(prefix: &str, msg: &str) -> (e: ActionError)
    ensures
        e matches ActionError::ActionFailed(s, d) && s@ == prefix@ + msg@ && d@ == prefix@ + msg@,
{
    let mut s = String::from_str(prefix);
    s.append(msg);
    let d = s.clone();
    ActionError::ActionFailed(s, d)
}

} // verus!
