//! The resolution, store and registry behaviors of the action contract.

use barley_actions::action::{ActionIdentity, ActionOutput};
use barley_actions::errors::ActionError;
use barley_actions::resolve::{resolve_flag, resolve_integer, resolve_text, ActionInput};
use barley_actions::state::SharedState;
use barley_actions::store::OutputStore;

#[test]
fn static_resolution_ignores_store() {
    // An empty store and a populated store give the same answer.
    let empty = OutputStore::new();
    let input = ActionInput::Static(String::from("x"));
    assert_eq!(resolve_text(&input, &empty).unwrap(), "x");

    let mut populated = OutputStore::new();
    populated.write_output(
        ActionIdentity::new(1),
        ActionOutput::Text(String::from("other")),
    );
    assert_eq!(resolve_text(&input, &populated).unwrap(), "x");
}

#[test]
fn dynamic_resolution_lifecycle() {
    let mut store = OutputStore::new();
    let id = ActionIdentity::new(42);
    let reference = ActionInput::<String>::Dynamic(id);

    // Before the producer writes: fails immediately, no blocking.
    assert_eq!(
        resolve_text(&reference, &store),
        Err(ActionError::NoActionReturn)
    );

    // After a text output is written: resolves as text to that value.
    store.write_output(id, ActionOutput::Text(String::from("v")));
    assert_eq!(resolve_text(&reference, &store).unwrap(), "v");

    // Resolving the same entry at an incompatible kind is a mismatch.
    let as_integer = ActionInput::<u64>::Dynamic(id);
    assert_eq!(
        resolve_integer(&as_integer, &store),
        Err(ActionError::TypeConversionMismatch)
    );
    let as_flag = ActionInput::<bool>::Dynamic(id);
    assert_eq!(
        resolve_flag(&as_flag, &store),
        Err(ActionError::TypeConversionMismatch)
    );
}

#[test]
fn output_roundtrip_every_kind() {
    let mut store = OutputStore::new();
    let text_id = ActionIdentity::new(1);
    let int_id = ActionIdentity::new(2);
    let flag_id = ActionIdentity::new(3);
    store.write_output(text_id, ActionOutput::Text(String::from("payload")));
    store.write_output(int_id, ActionOutput::Integer(7));
    store.write_output(flag_id, ActionOutput::Flag(true));

    let text_ref = ActionInput::<String>::Dynamic(text_id);
    assert_eq!(resolve_text(&text_ref, &store).unwrap(), "payload");
    let int_ref = ActionInput::<u64>::Dynamic(int_id);
    assert_eq!(resolve_integer(&int_ref, &store).unwrap(), 7);
    let flag_ref = ActionInput::<bool>::Dynamic(flag_id);
    assert!(resolve_flag(&flag_ref, &store).unwrap());
}

#[test]
fn store_reads_and_single_writer() {
    let mut store = OutputStore::new();
    let id = ActionIdentity::new(9);
    assert!(!store.has_output(id));
    assert!(store.get_output(id).is_none());

    store.write_output(id, ActionOutput::Integer(11));
    assert!(store.has_output(id));
    match store.get_output(id) {
        Some(ActionOutput::Integer(n)) => assert_eq!(*n, 11),
        other => panic!("unexpected entry: {:?}", other),
    }

    // A reader of another identity is unaffected.
    assert!(!store.has_output(ActionIdentity::new(10)));
}

#[test]
fn static_integer_and_flag_literals() {
    let store = OutputStore::new();
    assert_eq!(
        resolve_integer(&ActionInput::Static(3), &store).unwrap(),
        3
    );
    assert!(!resolve_flag(&ActionInput::Static(false), &store).unwrap());
}

#[test]
fn registry_before_and_after_loading() {
    let mut cell: SharedState<u32> = SharedState::new();
    assert!(cell.get_state().is_none());

    cell.add_state(5);
    assert_eq!(cell.get_state(), Some(&5));

    // Last registration wins; calling the hook twice does not corrupt the cell.
    cell.add_state(6);
    cell.add_state(6);
    assert_eq!(cell.get_state(), Some(&6));
}
