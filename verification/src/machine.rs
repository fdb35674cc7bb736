//! The life of one node of the dependency graph, as the driver sees it: a node
//! is probed once, then either skipped or run forward, and a node whose
//! forward run succeeded may later be asked to roll back. Every transition is
//! guarded by the probe's verdict, so a driver that goes through this machine
//! cannot run a satisfied node or roll back where the probe refused it.

use vstd::prelude::*;

use crate::action::Probe;

verus! {

/// How a compensating rollback ended.
#[derive(Clone, Copy, Debug, PartialEq, Eq, Structural)]
pub enum RollbackResult {
    Succeeded,
    Failed,
    /// The node's probe had reported `can_rollback == false`; the request was
    /// rejected without touching system state.
    Unsupported,
}

/// The states one node passes through.
#[derive(Clone, Copy, Debug, PartialEq, Eq, Structural)]
pub enum NodeState {
    /// No probe has run yet.
    Unprobed,
    /// The probe decided whether a run is needed and whether rollback is
    /// supported.
    Probed(Probe),
    /// The desired end state already held; `run` was skipped.
    Skipped,
    /// `run(Perform)` was executed, with the recorded probe; the flag says
    /// whether the run succeeded. A failed run is fatal to the node.
    Ran(Probe, bool),
    /// A rollback was requested after a successful perform.
    RolledBack(RollbackResult),
}

impl NodeState {
    /// States from which the driver takes no further step for this node.
    pub open spec fn is_terminal(self) -> bool {
        match self {
            NodeState::Skipped => true,
            NodeState::Ran(_, ok) => !ok,
            NodeState::RolledBack(_) => true,
            _ => false,
        }
    }

    /// Record the probe's verdict; probing is the node's first step.
    pub fn on_probed(self, probe: Probe) -> (r: NodeState)
        requires
            self == NodeState::Unprobed,
        ensures
            r == NodeState::Probed(probe),
    {
        NodeState::Probed(probe)
    }

    /// Whether the driver must invoke `run(Perform)` for this node. If not,
    /// the node moves directly to `Skipped`.
    pub fn needs_perform(self) -> (r: bool)
        requires
            self matches NodeState::Probed(_),
        ensures
            r == (self matches NodeState::Probed(p) && p.needs_run),
    {
        match self {
            NodeState::Probed(p) => p.needs_run,
            _ => false,
        }
    }

    /// Skip a node whose desired end state already holds.
    pub fn on_skip(self) -> (r: NodeState)
        requires
            self matches NodeState::Probed(p) && !p.needs_run,
        ensures
            r == NodeState::Skipped,
    {
        NodeState::Skipped
    }

    /// Record the outcome of `run(Perform)`, which the driver invokes only
    /// where the probe asked for a run.
    pub fn on_perform(self, succeeded: bool) -> (r: NodeState)
        requires
            self matches NodeState::Probed(p) && p.needs_run,
        ensures
            self matches NodeState::Probed(p) ==> r == NodeState::Ran(p, succeeded),
    {
        match self {
            NodeState::Probed(p) => NodeState::Ran(p, succeeded),
            _ => self,
        }
    }

    /// Whether a rollback request may execute the rollback direction at all:
    /// only on a node whose perform succeeded and whose probe allowed it.
    pub fn may_roll_back(self) -> (r: bool)
        requires
            self matches NodeState::Ran(_, true),
        ensures
            r == (self matches NodeState::Ran(p, true) && p.can_rollback),
    {
        match self {
            NodeState::Ran(p, ok) => ok && p.can_rollback,
            _ => false,
        }
    }

    /// A rollback request against a node whose probe refused rollback
    /// terminates at once in `Unsupported`, without touching system state.
    pub fn on_rollback_unsupported(self) -> (r: NodeState)
        requires
            self matches NodeState::Ran(p, true) && !p.can_rollback,
        ensures
            r == NodeState::RolledBack(RollbackResult::Unsupported),
    {
        NodeState::RolledBack(RollbackResult::Unsupported)
    }

    /// Record the outcome of an executed rollback, permitted only where the
    /// probe allowed one.
    pub fn on_rollback(self, succeeded: bool) -> (r: NodeState)
        requires
            self matches NodeState::Ran(p, true) && p.can_rollback,
        ensures
            succeeded ==> r == NodeState::RolledBack(RollbackResult::Succeeded),
            !succeeded ==> r == NodeState::RolledBack(RollbackResult::Failed),
    {
        if succeeded {
            NodeState::RolledBack(RollbackResult::Succeeded)
        } else {
            NodeState::RolledBack(RollbackResult::Failed)
        }
    }
}

/// The terminal states of a node: a skipped node, a failed perform — fatal to
/// the node and escalated to the driver — and any finished rollback; a freshly
/// probed node and a successful perform can still move.
pub proof fn lemma_terminal_states(p: Probe, ok: bool, rb: RollbackResult)
    ensures
        NodeState::Skipped.is_terminal(),
        NodeState::Ran(p, ok).is_terminal() == !ok,
        NodeState::RolledBack(rb).is_terminal(),
        !NodeState::Unprobed.is_terminal(),
        !NodeState::Probed(p).is_terminal(),
{
}

} // verus!
