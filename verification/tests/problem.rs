use hrm::code::commands::ALL_COMMANDS;
use hrm::game::problem::{ProblemBuilder, ProblemIO};
use hrm::game::value::Value;

#[test]
fn problem_enable_all_commands_test() {
    let problem = ProblemBuilder::new()
        .add_io(ProblemIO {
            input: vec![],
            output: vec![],
        })
        .memory_dim(0)
        .enable_all_commands()
        .build();

    assert_eq!(ALL_COMMANDS.len(), problem.available_commands.len());
    for command in ALL_COMMANDS {
        assert!(problem.is_command_available(command));
    }
}

#[test]
fn problem_enable_command_test() {
    let available_command = String::from("SUB");
    let problem = ProblemBuilder::new()
        .add_io(ProblemIO {
            input: vec![],
            output: vec![],
        })
        .memory_dim(0)
        .enable_command(available_command.clone())
        .build();

    assert!(problem.is_command_available(&available_command));

    ALL_COMMANDS
        .iter()
        .filter(|command| **command != available_command)
        .for_each(|command| assert!(!problem.is_command_available(*command)));
}

#[test]
fn problem_disable_command_test() {
    let unavailable_command = "SUB";
    let problem = ProblemBuilder::new()
        .add_io(ProblemIO {
            input: vec![],
            output: vec![],
        })
        .memory_dim(0)
        .enable_all_commands()
        .disable_command(unavailable_command)
        .build();

    assert!(!problem.is_command_available(unavailable_command));

    ALL_COMMANDS
        .iter()
        .filter(|command| **command != unavailable_command)
        .for_each(|command| assert!(problem.is_command_available(*command)));
}

#[test]
fn unknown_commands_are_not_enabled() {
    let problem = ProblemBuilder::new()
        .enable_command(String::from("NOP"))
        .enable_command(String::from("inbox"))
        .enable_command(String::from(""))
        .enable_command(String::from("INBOX"))
        .build();

    assert_eq!(1, problem.available_commands.len());
    assert!(problem.is_command_available("INBOX"));
    assert!(!problem.is_command_available("NOP"));
    assert!(!problem.is_command_available("inbox"));
}

#[test]
fn build_lays_out_the_memory() {
    let problem = ProblemBuilder::new()
        .memory_dim(4)
        .add_memory_slot(1, Value::Int(7))
        .add_memory_slot(3, Value::Char('x'))
        .add_memory_slot(1, Value::Int(8))
        .add_memory_slot(4, Value::Int(9))
        .add_memory_slot(usize::MAX, Value::Int(10))
        .build();

    assert_eq!(
        &vec![None, Some(Value::Int(8)), None, Some(Value::Char('x'))],
        problem.get_memory()
    );
}

#[test]
fn build_without_a_size_has_no_memory() {
    let problem = ProblemBuilder::new()
        .add_memory_slot(0, Value::Int(7))
        .build();

    assert!(problem.get_memory().is_empty());
    assert!(problem.get_ios().is_empty());
}

#[test]
fn build_keeps_title_description_and_tests() {
    let problem = ProblemBuilder::default()
        .title(String::from("Mail Room"))
        .description(String::from("Hand every value over."))
        .add_io(ProblemIO {
            input: vec![Value::Int(1)],
            output: vec![Value::Int(1)],
        })
        .add_io(ProblemIO {
            input: vec![Value::Char('a')],
            output: vec![],
        })
        .build();

    assert_eq!("Mail Room", problem.title);
    assert_eq!("Hand every value over.", problem.description);
    assert_eq!(
        &vec![
            ProblemIO {
                input: vec![Value::Int(1)],
                output: vec![Value::Int(1)],
            },
            ProblemIO {
                input: vec![Value::Char('a')],
                output: vec![],
            },
        ],
        problem.get_ios()
    );
}

#[test]
fn enable_all_commands_replaces_what_was_enabled() {
    let problem = ProblemBuilder::new()
        .enable_command(String::from("ADD"))
        .disable_command("ADD")
        .enable_all_commands()
        .disable_command("JUMP")
        .disable_command("NOP")
        .build();

    assert_eq!(ALL_COMMANDS.len() - 1, problem.available_commands.len());
    assert!(problem.is_command_available("ADD"));
    assert!(!problem.is_command_available("JUMP"));
}
