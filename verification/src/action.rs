//! The data types of the action contract: identities, operations, probes and
//! typed outputs.

use vstd::prelude::*;

verus! {

/// The direction requested of an action's `run`: forward work, or the
/// compensating undo of earlier forward work.
#[derive(Clone, Copy, Debug, PartialEq, Eq, Structural)]
pub enum Operation {
    Perform,
    Rollback,
}

/// The result of an idempotency probe, computed by inspecting current system
/// state without side effects.
///
/// `needs_run == false` means the action's desired end state already holds and
/// `run` must be skipped. `can_rollback == false` means a later compensating
/// rollback is not supported and must be rejected, not silently ignored.
#[derive(Clone, Copy, Debug, PartialEq, Eq, Structural)]
pub struct Probe {
    pub needs_run: bool,
    pub can_rollback: bool,
}

/// The opaque identity of one node of the dependency graph. It keys the
/// output store and is the payload of a dynamic input reference. The driver
/// assigns it once, when the action is registered into the graph, and never
/// reuses it.
#[derive(Clone, Copy, Debug, PartialEq, Eq, Hash, Structural)]
pub struct ActionIdentity {
    pub raw: u64,
}

impl ActionIdentity {
    pub fn new(raw: u64) -> (r: Self)
        ensures
            r == (ActionIdentity { raw }),
    {
        ActionIdentity { raw }
    }
}

/// A value an action may produce for its dependents: at minimum text, plus a
/// few other primitive kinds. A dependent consumes it through a typed
/// conversion that fails if the stored kind does not match the requested one.
#[derive(Debug, PartialEq, Eq)]
pub enum ActionOutput {
    Text(String),
    Integer(u64),
    Flag(bool),
}

/// The mathematical value of an [`ActionOutput`]: the same kinds, with text
/// abstracted to its character sequence.
pub enum OutputVal {
    Text(Seq<char>),
    Integer(u64),
    Flag(bool),
}

impl View for ActionOutput {
    type V = OutputVal;

    open spec fn view(&self) -> OutputVal {
        match self {
            ActionOutput::Text(s) => OutputVal::Text(s@),
            ActionOutput::Integer(n) => OutputVal::Integer(*n),
            ActionOutput::Flag(b) => OutputVal::Flag(*b),
        }
    }
}

} // verus!
