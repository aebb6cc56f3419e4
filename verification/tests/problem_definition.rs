use std::collections::HashMap;

use hrm::game::problem::{Problem, ProblemIO};
use hrm::game::value::Value;
use hrm::model::problem_definition::{
    PartialMemory, ProblemDefinition, ProblemDefinitionIO, ProblemDefinitionMemory,
};

#[test]
fn into_problem() {
    let problem_definition = create_problem_definition();
    let problem: Problem = problem_definition.into();

    assert_eq!(1, problem.get_ios().len());
    assert_eq!(2, problem.get_memory().len());
}

fn create_problem_definition() -> ProblemDefinition {
    let problem_io = ProblemDefinitionIO {
        input: vec![Value::Int(-5), Value::Char('A')],
        output: vec![Value::Int(123), Value::Char('0')],
    };

    let memory = ProblemDefinitionMemory {
        full: Some(vec![None, Some(Value::Int(1))]),
        partial: None,
    };

    let commands = vec![String::from("INBOX"), String::from("OUTBOX")];

    ProblemDefinition {
        ios: vec![problem_io],
        memory: Some(memory),
        commands,
    }
}

#[test]
fn into_problem_keeps_the_values() {
    let problem: Problem = create_problem_definition().into();

    assert_eq!(
        &vec![ProblemIO {
            input: vec![Value::Int(-5), Value::Char('A')],
            output: vec![Value::Int(123), Value::Char('0')],
        }],
        problem.get_ios()
    );
    assert_eq!(&vec![None, Some(Value::Int(1))], problem.get_memory());
    assert_eq!(2, problem.available_commands.len());
    assert!(problem.is_command_available("INBOX"));
    assert!(problem.is_command_available("OUTBOX"));
    assert!(!problem.is_command_available("ADD"));
    assert_eq!("", problem.title);
    assert_eq!("", problem.description);
}

#[test]
fn into_problem_without_memory() {
    let problem: Problem = ProblemDefinition {
        ios: vec![],
        memory: None,
        commands: vec![String::from("ADD"), String::from("MUL"), String::from("ADD")],
    }
    .into();

    assert!(problem.get_ios().is_empty());
    assert!(problem.get_memory().is_empty());
    assert_eq!(1, problem.available_commands.len());
    assert!(problem.is_command_available("ADD"));
    assert!(!problem.is_command_available("MUL"));
}

#[test]
fn into_problem_from_a_partial_memory() {
    let problem: Problem = ProblemDefinition {
        ios: vec![],
        memory: Some(ProblemDefinitionMemory {
            full: None,
            partial: Some(PartialMemory {
                dim: 3,
                values: HashMap::from([
                    (2, Value::Char('c')),
                    (0, Value::Int(4)),
                    (3, Value::Int(5)),
                ]),
            }),
        }),
        commands: vec![],
    }
    .into();

    assert_eq!(
        &vec![Some(Value::Int(4)), None, Some(Value::Char('c'))],
        problem.get_memory()
    );
}

#[test]
fn into_problem_prefers_the_full_memory() {
    let problem: Problem = ProblemDefinition {
        ios: vec![],
        memory: Some(ProblemDefinitionMemory {
            full: Some(vec![Some(Value::Int(1))]),
            partial: Some(PartialMemory {
                dim: 3,
                values: HashMap::new(),
            }),
        }),
        commands: vec![],
    }
    .into();

    assert_eq!(&vec![Some(Value::Int(1))], problem.get_memory());
}

#[test]
fn into_problem_with_neither_memory() {
    let problem: Problem = ProblemDefinition {
        ios: vec![],
        memory: Some(ProblemDefinitionMemory {
            full: None,
            partial: None,
        }),
        commands: vec![],
    }
    .into();

    assert!(problem.get_memory().is_empty());
}

#[test]
fn io_definition_becomes_a_test() {
    let io: ProblemIO = ProblemDefinitionIO {
        input: vec![Value::Int(1)],
        output: vec![Value::Char('b')],
    }
    .into();

    assert_eq!(
        ProblemIO {
            input: vec![Value::Int(1)],
            output: vec![Value::Char('b')],
        },
        io
    );
}
