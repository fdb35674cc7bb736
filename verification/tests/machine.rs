//! The per-node probe / run state machine the driver walks.

use barley_actions::action::Probe;
use barley_actions::machine::{NodeState, RollbackResult};

#[test]
fn node_perform_and_rollback_path() {
    let probe = Probe {
        needs_run: true,
        can_rollback: true,
    };
    let probed = NodeState::Unprobed.on_probed(probe);
    assert_eq!(probed, NodeState::Probed(probe));
    assert!(probed.needs_perform());

    let ran = probed.on_perform(true);
    assert_eq!(ran, NodeState::Ran(probe, true));
    assert!(ran.may_roll_back());

    assert_eq!(
        ran.on_rollback(true),
        NodeState::RolledBack(RollbackResult::Succeeded)
    );
    assert_eq!(
        ran.on_rollback(false),
        NodeState::RolledBack(RollbackResult::Failed)
    );
}

#[test]
fn node_skip_path() {
    let probe = Probe {
        needs_run: false,
        can_rollback: true,
    };
    let probed = NodeState::Unprobed.on_probed(probe);
    assert!(!probed.needs_perform());
    assert_eq!(probed.on_skip(), NodeState::Skipped);
}

#[test]
fn node_unsupported_rollback_path() {
    let probe = Probe {
        needs_run: true,
        can_rollback: false,
    };
    let ran = NodeState::Unprobed.on_probed(probe).on_perform(true);

    // The probe refused rollback: the request terminates without a run.
    assert!(!ran.may_roll_back());
    assert_eq!(
        ran.on_rollback_unsupported(),
        NodeState::RolledBack(RollbackResult::Unsupported)
    );
}

#[test]
fn node_failed_perform_is_fatal() {
    let probe = Probe {
        needs_run: true,
        can_rollback: true,
    };
    let failed = NodeState::Unprobed.on_probed(probe).on_perform(false);
    assert_eq!(failed, NodeState::Ran(probe, false));
}
