use hrm::code::commands::copy_from::{CopyFrom, CopyFromFactory};
use hrm::code::commands::{Command, CommandFactory, CommandValue};
use hrm::code::game_state::GameState;
use hrm::code::program::RunError;
use hrm::game::value::Value;

#[test]
fn copy_from_create_succeeds() {
    let command = CopyFrom::create("42").unwrap();
    assert_eq!(CopyFrom(CommandValue::Value(42)), command);

    let command = CopyFrom::create("[42]").unwrap();
    assert_eq!(CopyFrom(CommandValue::Index(42)), command);
}

#[test]
fn copy_from_create_fails() {
    let command = CopyFrom::create("");
    assert!(command.is_none());

    let command = CopyFrom::create("");
    assert!(command.is_none());

    let command = CopyFrom::create("a");
    assert!(command.is_none());

    let command = CopyFrom::create("a1");
    assert!(command.is_none());

    let command = CopyFrom::create(" ");
    assert!(command.is_none());

    let command = CopyFrom::create(" 1 ");
    assert!(command.is_none());
}

#[test]
fn copy_from_command_test() {
    assert_eq!("COPYFROM", CopyFromFactory.command());
}

#[test]
fn copy_from_factory_create_succeeds() {
    let command = CopyFromFactory.create("42");
    assert!(command.is_some());

    let command = CopyFromFactory.create("[42]");
    assert!(command.is_some());
}

#[test]
fn copy_from_factory_create_fails() {
    let command = CopyFromFactory.create("");
    assert!(command.is_none());

    let command = CopyFromFactory.create("");
    assert!(command.is_none());

    let command = CopyFromFactory.create("a");
    assert!(command.is_none());

    let command = CopyFromFactory.create("a1");
    assert!(command.is_none());

    let command = CopyFromFactory.create(" ");
    assert!(command.is_none());

    let command = CopyFromFactory.create(" 1 ");
    assert!(command.is_none());
}

#[test]
fn copy_from_execute_succeeds() {
    let mut game_state = GameState {
        input: &vec![],
        output: &vec![],
        memory: vec![Some(Value::Int(1)), Some(Value::Char('A'))],
        acc: Some(Value::Int(1)),
        i_input: 0,
        i_output: 0,
        i_command: 0,
        speed: 0,
    };

    CopyFrom(CommandValue::Value(0))
        .execute(&Default::default(), &mut game_state)
        .unwrap();
    assert_eq!(Value::Int(1), game_state.acc.unwrap());

    CopyFrom(CommandValue::Index(0))
        .execute(&Default::default(), &mut game_state)
        .unwrap();
    assert_eq!(Value::Char('A'), game_state.acc.unwrap());
}

#[test]
fn execute_empty_memory() {
    let mut game_state = GameState {
        input: &vec![],
        output: &vec![],
        memory: vec![None],
        acc: None,
        i_input: 1,
        i_output: 0,
        i_command: 0,
        speed: 0,
    };

    let result = CopyFrom(CommandValue::Value(0))
        .execute(&Default::default(), &mut game_state)
        .unwrap_err();
    assert_eq!(RunError::EmptyMemory, result);
}

#[test]
fn copy_from_execute_bad_index() {
    let mut game_state = GameState {
        input: &vec![],
        output: &vec![],
        memory: vec![Some(Value::Int(5)), Some(Value::Char('A')), None],
        acc: Some(Value::Int(1)),
        i_input: 1,
        i_output: 0,
        i_command: 0,
        speed: 0,
    };

    let result = CopyFrom(CommandValue::Index(0))
        .execute(&Default::default(), &mut game_state)
        .unwrap_err();
    assert_eq!(RunError::IndexOutOfRange(Value::Int(5)), result);

    let result = CopyFrom(CommandValue::Index(1))
        .execute(&Default::default(), &mut game_state)
        .unwrap_err();
    assert_eq!(RunError::CharIndex(Value::Char('A')), result);

    let result = CopyFrom(CommandValue::Index(2))
        .execute(&Default::default(), &mut game_state)
        .unwrap_err();
    assert_eq!(RunError::EmptyMemory, result);
}

#[test]
fn copy_from_next_test() {
    let game_state = GameState {
        input: &vec![],
        output: &vec![],
        memory: vec![],
        acc: None,
        i_input: 0,
        i_output: 0,
        i_command: 0,
        speed: 0,
    };

    assert_eq!(
        1,
        CopyFrom(CommandValue::Value(1))
            .next(&Default::default(), &game_state)
            .unwrap()
    );
}

#[test]
fn copy_from_requires_index_test() {
    let command = CopyFrom(CommandValue::Value(42));
    assert!(command.requires_index().is_none());

    let command = CopyFrom(CommandValue::Index(42));
    assert_eq!(42, command.requires_index().unwrap());
}

#[test]
fn copy_from_requires_label_test() {
    assert!(CopyFrom(CommandValue::Value(42)).requires_label().is_none());
    assert!(CopyFrom(CommandValue::Index(42)).requires_label().is_none());
}

#[test]
fn copy_from_factory_test() {
    assert_eq!(
        "COPYFROM",
        CopyFrom(CommandValue::Value(42)).factory().command()
    );
    assert_eq!(
        "COPYFROM",
        CopyFrom(CommandValue::Index(42)).factory().command()
    );
}
