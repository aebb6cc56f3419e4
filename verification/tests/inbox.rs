use hrm::code::commands::inbox::{Inbox, InboxFactory};
use hrm::code::commands::{Command, CommandFactory};
use hrm::code::game_state::GameState;
use hrm::game::value::Value;

#[test]
fn inbox_create_succeeds() {
    let command = Inbox::create("").unwrap();
    assert_eq!(Inbox::new(), command);
}

#[test]
fn inbox_create_fails() {
    let command = Inbox::create("a");
    assert!(command.is_none());

    let command = Inbox::create("1");
    assert!(command.is_none());

    let command = Inbox::create(" ");
    assert!(command.is_none());
}

#[test]
fn inbox_command_test() {
    assert_eq!("INBOX", InboxFactory.command());
}

#[test]
fn inbox_factory_create_succeeds() {
    let command = InboxFactory.create("");
    assert!(command.is_some());
}

#[test]
fn inbox_factory_create_fails() {
    let command = InboxFactory.create("a");
    assert!(command.is_none());

    let command = InboxFactory.create("1");
    assert!(command.is_none());

    let command = InboxFactory.create(" ");
    assert!(command.is_none());
}

#[test]
fn inbox_execute_succeeds() {
    let mut game_state = GameState {
        input: &vec![Value::Int(5)],
        output: &vec![],
        memory: vec![],
        acc: None,
        i_input: 0,
        i_output: 0,
        i_command: 0,
        speed: 0,
    };

    Inbox::new()
        .execute(&Default::default(), &mut game_state)
        .unwrap();
    assert_eq!(1, game_state.i_input);
}

#[test]
fn execute_no_inputs() {
    let mut game_state = GameState {
        input: &vec![Value::Int(5)],
        output: &vec![],
        memory: vec![],
        acc: None,
        i_input: 1,
        i_output: 0,
        i_command: 0,
        speed: 0,
    };

    Inbox::new()
        .execute(&Default::default(), &mut game_state)
        .unwrap();
    assert_eq!(1, game_state.i_input);
}

#[test]
fn next_succeeds() {
    let game_state = GameState {
        input: &vec![Value::Int(5)],
        output: &vec![],
        memory: vec![],
        acc: None,
        i_input: 0,
        i_output: 0,
        i_command: 0,
        speed: 0,
    };

    assert_eq!(
        1,
        Inbox::new()
            .next(&Default::default(), &game_state)
            .unwrap()
    );
}

#[test]
fn next_is_over() {
    let game_state = GameState {
        input: &vec![Value::Int(5)],
        output: &vec![],
        memory: vec![],
        acc: None,
        i_input: 1,
        i_output: 0,
        i_command: 0,
        speed: 0,
    };

    assert_eq!(
        usize::MAX,
        Inbox::new()
            .next(&Default::default(), &game_state)
            .unwrap()
    );
}

#[test]
fn inbox_requires_index_test() {
    assert!(Inbox::new().requires_index().is_none());
}

#[test]
fn inbox_requires_label_test() {
    assert!(Inbox::new().requires_label().is_none());
}

#[test]
fn inbox_factory_test() {
    assert_eq!("INBOX", Inbox::new().factory().command());
}
