//! The concrete actions: planned commands, probe verdicts, run verdicts,
//! rollback refusals and labels.

use barley_actions::action::{ActionIdentity, ActionOutput, Operation};
use barley_actions::apt::{AptPackage, AptPackages, AptRepository, AptUpdate};
use barley_actions::command::CommandOutcome;
use barley_actions::errors::ActionError;
use barley_actions::http::{HttpGet, HttpOutcome};
use barley_actions::resolve::ActionInput;
use barley_actions::state::SharedState;
use barley_actions::store::OutputStore;
use barley_actions::strings::Join;
use barley_actions::tempfile::{FileOutcome, TempFile};

fn completed(success: bool) -> CommandOutcome {
    CommandOutcome::Completed {
        success,
        stdout: String::new(),
        stderr: String::new(),
    }
}

#[test]
fn package_probe_decides_idempotency() {
    let store = OutputStore::new();
    let action = AptPackage::new(ActionInput::Static(String::from("nginx")));

    let cmd = action.probe_command(&store).unwrap();
    assert_eq!(cmd.program, "dpkg-query");
    assert_eq!(cmd.args, vec!["-W", "-f='${Status}'", "nginx"]);

    // Package absent: the probe demands a run.
    let before = action.probe_verdict(&completed(false)).unwrap();
    assert!(before.needs_run);
    assert!(before.can_rollback);

    // After a successful perform the same query succeeds: no run needed.
    let after = action.probe_verdict(&completed(true)).unwrap();
    assert!(!after.needs_run);
    assert!(after.can_rollback);
}

#[test]
fn package_probe_is_repeatable() {
    let action = AptPackage::new(ActionInput::Static(String::from("nginx")));
    let first = action.probe_verdict(&completed(true)).unwrap();
    let second = action.probe_verdict(&completed(true)).unwrap();
    assert_eq!(first, second);
}

#[test]
fn package_run_directions() {
    let store = OutputStore::new();
    let action = AptPackage::new(ActionInput::Static(String::from("nginx")));

    let forward = action.run_command(&store, Operation::Perform).unwrap();
    assert_eq!(forward.program, "apt-get");
    assert_eq!(forward.args, vec!["install", "-y", "nginx"]);

    let backward = action.run_command(&store, Operation::Rollback).unwrap();
    assert_eq!(backward.args, vec!["remove", "-y", "nginx"]);

    assert_eq!(
        action.run_verdict(Operation::Perform, &completed(true)),
        Ok(None)
    );
}

#[test]
fn package_run_failure_preserves_streams() {
    let action = AptPackage::new(ActionInput::Static(String::from("nginx")));
    let outcome = CommandOutcome::Completed {
        success: false,
        stdout: String::from("out"),
        stderr: String::from("err"),
    };
    match action.run_verdict(Operation::Perform, &outcome) {
        Err(ActionError::ActionFailed(summary, detail)) => {
            assert_eq!(summary, "Failed to install package");
            assert_eq!(detail, "-- STDERR --\n\nerr\n\n-- STDOUT --\n\nout");
        }
        other => panic!("unexpected answer: {:?}", other),
    }
    match action.run_verdict(Operation::Rollback, &CommandOutcome::SpawnError) {
        Err(ActionError::ActionFailed(summary, detail)) => {
            assert_eq!(summary, "Failed to remove package");
            assert_eq!(detail, "Failed to run apt-get (internal error)");
        }
        other => panic!("unexpected answer: {:?}", other),
    }
}

#[test]
fn package_dynamic_name_resolves() {
    let mut store = OutputStore::new();
    let producer = ActionIdentity::new(1);
    let action = AptPackage::new(ActionInput::Dynamic(producer));

    assert_eq!(
        action.probe_command(&store),
        Err(ActionError::NoActionReturn)
    );

    store.write_output(producer, ActionOutput::Text(String::from("curl")));
    let cmd = action.probe_command(&store).unwrap();
    assert_eq!(cmd.args[2], "curl");
}

#[test]
fn packages_plan_and_verdicts() {
    let store = OutputStore::new();
    let action = AptPackages::new(vec![
        ActionInput::Static(String::from("a")),
        ActionInput::Static(String::from("b")),
    ]);

    let queries = action.probe_commands(&store).unwrap();
    assert_eq!(queries.len(), 2);
    assert_eq!(queries[0].args[2], "a");
    assert_eq!(queries[1].args[2], "b");

    // All installed: nothing to do.
    let all_ok = action
        .probe_verdict(&vec![completed(true), completed(true)])
        .unwrap();
    assert!(!all_ok.needs_run);

    // One missing: a run is needed.
    let one_missing = action
        .probe_verdict(&vec![completed(true), completed(false)])
        .unwrap();
    assert!(one_missing.needs_run);

    // A query that could not launch fails the probe.
    match action.probe_verdict(&vec![completed(true), CommandOutcome::SpawnError]) {
        Err(ActionError::ActionFailed(summary, detail)) => {
            assert_eq!(summary, "Failed to check if package is installed");
            assert_eq!(detail, "Failed to run dpkg-query (internal error)");
        }
        other => panic!("unexpected answer: {:?}", other),
    }

    let forward = action.run_command(&store, Operation::Perform).unwrap();
    assert_eq!(forward.args, vec!["install", "-y", "a", "b"]);
    let backward = action.run_command(&store, Operation::Rollback).unwrap();
    assert_eq!(backward.args, vec!["remove", "-y", "a", "b"]);
}

#[test]
fn repository_plan_and_verdicts() {
    let store = OutputStore::new();
    let action = AptRepository::new(ActionInput::Static(String::from("ppa:x/y")));

    let query = action.probe_command(&store).unwrap();
    assert_eq!(query.program, "apt-cache");
    assert_eq!(query.args, vec!["policy", "ppa:x/y"]);

    let probe = action.probe_verdict(&completed(false)).unwrap();
    assert!(probe.needs_run);
    assert!(probe.can_rollback);

    let forward = action.run_command(&store, Operation::Perform).unwrap();
    assert_eq!(forward.program, "add-apt-repository");
    assert_eq!(forward.args, vec!["ppa:x/y"]);
    let backward = action.run_command(&store, Operation::Rollback).unwrap();
    assert_eq!(backward.args, vec!["-r", "ppa:x/y"]);
}

#[test]
fn update_refuses_rollback() {
    let action = AptUpdate::new();
    let probe = action.probe().unwrap();
    assert!(probe.needs_run);
    assert!(!probe.can_rollback);

    let forward = action.run_command(Operation::Perform).unwrap();
    assert_eq!(forward.program, "apt-get");
    assert_eq!(forward.args, vec!["update"]);

    assert_eq!(
        action.run_command(Operation::Rollback),
        Err(ActionError::OperationNotSupported)
    );
    assert_eq!(action.run_verdict(&completed(true)), Ok(None));
}

#[test]
fn http_get_requires_loaded_state() {
    let store = OutputStore::new();
    let empty: SharedState<u32> = SharedState::new();
    let action = HttpGet::new(ActionInput::Static(String::from("https://x")));

    // The hook never ran: a clean failure, not a crash.
    assert_eq!(
        action.run_request(&store, &empty, Operation::Perform),
        Err(ActionError::StateNotLoaded)
    );
}

#[test]
fn http_get_dependent_fetch_ordering() {
    let mut store = OutputStore::new();
    let mut registry: SharedState<u32> = SharedState::new();
    HttpGet::load_state(0, &mut registry);

    let producer = ActionIdentity::new(5);
    let action = HttpGet::new(ActionInput::Dynamic(producer));

    // Scheduled before the producer completed: fails immediately.
    assert_eq!(
        action.run_request(&store, &registry, Operation::Perform),
        Err(ActionError::NoActionReturn)
    );

    // After the producer wrote its output: resolves to the produced URL.
    store.write_output(producer, ActionOutput::Text(String::from("https://x")));
    assert_eq!(
        action
            .run_request(&store, &registry, Operation::Perform)
            .unwrap(),
        "https://x"
    );

    assert_eq!(
        action.run_request(&store, &registry, Operation::Rollback),
        Err(ActionError::OperationNotSupported)
    );
}

#[test]
fn http_get_verdicts() {
    let action = HttpGet::new(ActionInput::Static(String::from("https://x")));

    assert_eq!(
        action.run_verdict(&HttpOutcome::Body(String::from("hello"))),
        Ok(Some(ActionOutput::Text(String::from("hello"))))
    );
    match action.run_verdict(&HttpOutcome::BadStatus(String::from("404 Not Found"))) {
        Err(ActionError::ActionFailed(summary, detail)) => {
            assert_eq!(summary, "Request failed with status code: 404 Not Found");
            assert_eq!(detail, summary);
        }
        other => panic!("unexpected answer: {:?}", other),
    }
    match action.run_verdict(&HttpOutcome::SendError(String::from("refused"))) {
        Err(ActionError::ActionFailed(summary, _)) => {
            assert_eq!(summary, "Failed to send request: refused");
        }
        other => panic!("unexpected answer: {:?}", other),
    }
    match action.run_verdict(&HttpOutcome::BodyError(String::from("cut off"))) {
        Err(ActionError::ActionFailed(summary, _)) => {
            assert_eq!(summary, "Failed to read response body: cut off");
        }
        other => panic!("unexpected answer: {:?}", other),
    }
}

#[test]
fn join_concatenates_in_order() {
    let mut store = OutputStore::new();
    let producer = ActionIdentity::new(2);
    store.write_output(producer, ActionOutput::Text(String::from("-mid-")));

    let action = Join::new(vec![
        ActionInput::Static(String::from("ab")),
        ActionInput::Dynamic(producer),
        ActionInput::Static(String::from("cd")),
    ]);
    assert_eq!(
        action.run(&store, Operation::Perform),
        Ok(Some(ActionOutput::Text(String::from("ab-mid-cd"))))
    );

    assert_eq!(
        action.run(&store, Operation::Rollback),
        Err(ActionError::OperationNotSupported)
    );
}

#[test]
fn join_of_nothing_is_empty() {
    let store = OutputStore::new();
    let action = Join::new(Vec::new());
    assert_eq!(
        action.run(&store, Operation::Perform),
        Ok(Some(ActionOutput::Text(String::new())))
    );
}

#[test]
fn join_reports_first_failure() {
    let store = OutputStore::new();
    let action = Join::new(vec![
        ActionInput::Static(String::from("ok")),
        ActionInput::Dynamic(ActionIdentity::new(99)),
    ]);
    assert_eq!(
        action.run(&store, Operation::Perform),
        Err(ActionError::NoActionReturn)
    );
}

#[test]
fn temp_file_plans_and_judges() {
    let store = OutputStore::new();
    let action = TempFile::new(ActionInput::Static(String::from("data")));

    assert_eq!(
        action.run_request(&store, Operation::Perform).unwrap(),
        "data"
    );
    assert_eq!(
        action.run_request(&store, Operation::Rollback),
        Err(ActionError::OperationNotSupported)
    );

    assert_eq!(
        action.run_verdict(&FileOutcome::Written(String::from("/tmp/f"))),
        Ok(Some(ActionOutput::Text(String::from("/tmp/f"))))
    );
    match action.run_verdict(&FileOutcome::WriteError(String::from("full"))) {
        Err(ActionError::ActionFailed(summary, detail)) => {
            assert_eq!(summary, "Failed to write to file: full");
            assert_eq!(detail, summary);
        }
        other => panic!("unexpected answer: {:?}", other),
    }
}

#[test]
fn constant_probes_are_repeatable() {
    let http = HttpGet::new(ActionInput::Static(String::from("https://x")));
    assert_eq!(http.probe().unwrap(), http.probe().unwrap());
    let join = Join::new(Vec::new());
    assert_eq!(join.probe().unwrap(), join.probe().unwrap());
    let file = TempFile::new(ActionInput::Static(String::from("c")));
    assert_eq!(file.probe().unwrap(), file.probe().unwrap());
    let update = AptUpdate::new();
    assert_eq!(update.probe().unwrap(), update.probe().unwrap());
}

#[test]
fn display_names() {
    assert_eq!(
        AptPackage::new(ActionInput::Static(String::from("nginx"))).display_name(),
        "Install APT package nginx"
    );
    assert_eq!(
        AptPackage::new(ActionInput::Dynamic(ActionIdentity::new(1))).display_name(),
        "Install APT package <dynamic>"
    );
    assert_eq!(
        AptPackages::new(Vec::new()).display_name(),
        "Install APT packages"
    );
    assert_eq!(
        AptRepository::new(ActionInput::Static(String::from("u"))).display_name(),
        "Add repository"
    );
    assert_eq!(AptUpdate::new().display_name(), "Update APT Cache");
    assert_eq!(
        HttpGet::new(ActionInput::Static(String::from("https://x"))).display_name(),
        "HttpGet https://x"
    );
    assert_eq!(Join::new(Vec::new()).display_name(), "");
    assert_eq!(
        TempFile::new(ActionInput::Static(String::from("c"))).display_name(),
        "TempFile"
    );
}
