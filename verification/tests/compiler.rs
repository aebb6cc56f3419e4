use hrm::code::commands::add;
use hrm::code::commands::bump_down::BumpDown;
use hrm::code::commands::copy_from::CopyFrom;
use hrm::code::commands::inbox::Inbox;
use hrm::code::commands::jump::Jump;
use hrm::code::commands::jump_zero::JumpZero;
use hrm::code::commands::outbox::Outbox;
use hrm::code::commands::{commands, AnyCommand, AnyFactory, CommandValue};
use hrm::code::program::{Program, Score};
use hrm::compiler::compile::{Compiler, DefineInstruction, ParseError, ParsedLine};
use hrm::game::problem::{ProblemBuilder, ProblemIO};
use hrm::game::value::Value;

fn compile(code: &str) -> Result<Program, ParseError> {
    Compiler::default().compile(code)
}

#[test]
fn the_default_compiler_knows_every_instruction() {
    assert_eq!(commands(), Compiler::default().commands);
    assert_eq!(
        vec![
            AnyFactory::Add,
            AnyFactory::BumpDown,
            AnyFactory::BumpUp,
            AnyFactory::CopyFrom,
            AnyFactory::CopyTo,
            AnyFactory::Inbox,
            AnyFactory::Jump,
            AnyFactory::JumpNegative,
            AnyFactory::JumpZero,
            AnyFactory::Outbox,
            AnyFactory::Sub,
        ],
        Compiler::default().commands
    );
}

#[test]
fn compile_reads_instructions_and_labels() {
    let program = compile("a:\nINBOX\nJUMPZ b\nBUMPDN [0]\nJUMP a\nb:\nOUTBOX").unwrap();

    assert_eq!(
        vec![
            AnyCommand::Inbox(Inbox),
            AnyCommand::JumpZero(JumpZero(String::from("b"))),
            AnyCommand::BumpDown(BumpDown(CommandValue::Index(0))),
            AnyCommand::Jump(Jump(String::from("a"))),
            AnyCommand::Outbox(Outbox),
        ],
        program.commands
    );
    assert_eq!(
        vec![(String::from("a"), 0), (String::from("b"), 4)],
        program.labels
    );
}

#[test]
fn compile_of_nothing_is_the_empty_program() {
    for code in ["", "\n", "\n\n\n", "  \n\t\n", "\r\n\r\n"] {
        let program = compile(code).unwrap();
        assert!(program.commands.is_empty(), "{:?}", code);
        assert!(program.labels.is_empty(), "{:?}", code);
    }
}

#[test]
fn compile_passes_over_what_is_no_code() {
    let code = "-- HUMAN RESOURCE MACHINE PROGRAM --\n\
        \n\
        \x20   COMMENT  0\n\
        a:\n\
        \tINBOX   \n\
        --OUTBOX--\n\
        \x20   ADD 3\r\n\
        DEFINE COMMENT 0\n\
        DEFINE LABEL 12\n\
        \x20 JUMP   a  \n";
    let program = compile(code).unwrap();

    assert_eq!(
        vec![
            AnyCommand::Inbox(Inbox),
            AnyCommand::Add(add::Add(CommandValue::Value(3))),
            AnyCommand::Jump(Jump(String::from("a"))),
        ],
        program.commands
    );
    assert_eq!(vec![(String::from("a"), 0)], program.labels);
}

#[test]
fn compile_stops_at_the_first_illegal_line() {
    assert_eq!(
        Err(ParseError::IllegalLine(String::from("inbox"))),
        compile("INBOX\n  inbox \nOUTBOX\nNOP").map(|program| program.commands)
    );
    assert_eq!(
        Err(ParseError::IllegalLine(String::from("NOP"))),
        compile("INBOX\nNOP").map(|program| program.commands)
    );
    assert_eq!(
        Err(ParseError::IllegalLine(String::from("INBOX 1"))),
        compile("\tINBOX 1").map(|program| program.commands)
    );
    assert_eq!(
        Err(ParseError::IllegalLine(String::from("ADD"))),
        compile("ADD").map(|program| program.commands)
    );
    assert_eq!(
        Err(ParseError::IllegalLine(String::from("JUMPa"))),
        compile("a:\nJUMPa").map(|program| program.commands)
    );
    assert_eq!(
        Err(ParseError::IllegalLine(String::from("COMMENT 4294967296"))),
        compile("COMMENT 4294967296").map(|program| program.commands)
    );
    assert_eq!(
        Err(ParseError::IllegalLine(String::from("a: b:"))),
        compile("a: b:").map(|program| program.commands)
    );
}

#[test]
fn a_label_stands_for_the_next_instruction() {
    let program = compile("a:\nb:\nINBOX\nc:\nc:\nOUTBOX\nd:").unwrap();

    assert_eq!(
        vec![
            (String::from("a"), 0),
            (String::from("b"), 0),
            (String::from("c"), 1),
            (String::from("d"), 2),
        ],
        program.labels
    );
    assert_eq!(Some(0), program.get_label("a"));
    assert_eq!(Some(1), program.get_label("c"));
    assert_eq!(Some(2), program.get_label("d"));
}

#[test]
fn a_label_declared_again_stands_for_the_later_position() {
    let program = compile("a:\nINBOX\nb:\nOUTBOX\na:\nJUMP a\nJUMP b").unwrap();

    assert_eq!(
        vec![(String::from("a"), 2), (String::from("b"), 1)],
        program.labels
    );
    assert_eq!(Some(2), program.get_label("a"));
    assert_eq!(Some(1), program.get_label("b"));
}

#[test]
fn compile_instruction_says_what_a_line_is() {
    let compiler = Compiler::default();
    let said = |line: &str| format!("{:?}", compiler.compile_instruction(line));

    assert_eq!("Ok(Empty)", said(""));
    assert_eq!("Ok(Empty)", said(" \t "));
    assert_eq!("Ok(CommentedCode)", said("--"));
    assert_eq!("Ok(CommentedCode)", said(" -- COMMENT 1 -- "));
    assert_eq!("Ok(Comment(12))", said("COMMENT 12"));
    assert_eq!("Ok(Define(COMMENT(1)))", said("DEFINE COMMENT 1"));
    assert_eq!("Ok(Define(LABEL(2)))", said("DEFINE LABEL 2"));
    assert_eq!("Ok(Label(\"abc\"))", said("abc:"));
    assert_eq!("Ok(Command(Inbox(Inbox)))", said("INBOX"));
    assert_eq!(
        "Ok(Command(CopyFrom(CopyFrom(Index(3)))))",
        said("COPYFROM [3]")
    );
    assert_eq!(
        "Ok(Command(JumpNegative(JumpNegative(\"a\"))))",
        said("JUMPN a")
    );
    assert_eq!("Err(IllegalLine(\"-\"))", said(" - "));
    assert_eq!("Err(IllegalLine(\"COMMENT\"))", said("COMMENT"));
    assert_eq!("Err(IllegalLine(\"DEFINE LABEL\"))", said("DEFINE LABEL"));
    assert_eq!("Err(IllegalLine(\"Inbox\"))", said("Inbox"));
}

#[test]
fn compile_instruction_keeps_what_it_read() {
    let compiler = Compiler::default();

    match compiler.compile_instruction(" DEFINE  LABEL  7 ") {
        Ok(ParsedLine::Define(define)) => assert_eq!(DefineInstruction::LABEL(7), define),
        other => panic!("{:?}", other),
    }
    match compiler.compile_instruction("\tCOPYFROM\t 0012 \r") {
        Ok(ParsedLine::Command(command)) => {
            assert_eq!(
                AnyCommand::CopyFrom(CopyFrom(CommandValue::Value(12))),
                command
            )
        }
        other => panic!("{:?}", other),
    }
    match compiler.compile_instruction("zzz:") {
        Ok(ParsedLine::Label(label)) => assert_eq!("zzz", label),
        other => panic!("{:?}", other),
    }
}

#[test]
fn a_compiler_knows_only_its_factories() {
    let compiler = Compiler {
        commands: vec![AnyFactory::Outbox, AnyFactory::Inbox],
    };

    assert_eq!(
        Some(AnyCommand::Inbox(Inbox)),
        compiler.compile_command("INBOX")
    );
    assert_eq!(None, compiler.compile_command("ADD 1"));
    assert_eq!(
        Err(ParseError::IllegalLine(String::from("ADD 1"))),
        compiler
            .compile("INBOX\nADD 1")
            .map(|program| program.commands)
    );
    assert_eq!(
        Ok(vec![AnyCommand::Outbox(Outbox), AnyCommand::Inbox(Inbox)]),
        compiler
            .compile("OUTBOX\nINBOX")
            .map(|program| program.commands)
    );

    let empty = Compiler { commands: vec![] };
    assert_eq!(None, empty.compile_command("INBOX"));
    assert_eq!(
        Ok((vec![], vec![(String::from("a"), 0)])),
        empty
            .compile("a:\n\nCOMMENT 1")
            .map(|program| (program.commands, program.labels))
    );
}

#[test]
fn a_compiled_program_runs() {
    // Hands over the larger of every two values.
    let code = "\
        a:\n\
        \x20   INBOX\n\
        \x20   COPYTO 0\n\
        \x20   INBOX\n\
        \x20   SUB 0\n\
        \x20   JUMPN b\n\
        \x20   ADD 0\n\
        \x20   JUMP c\n\
        b:\n\
        \x20   COPYFROM 0\n\
        c:\n\
        \x20   OUTBOX\n\
        \x20   JUMP a\n";
    let program = compile(code).unwrap();
    let problem = ProblemBuilder::new()
        .memory_dim(1)
        .enable_all_commands()
        .add_io(ProblemIO {
            input: vec![Value::Int(1), Value::Int(5), Value::Int(4), Value::Int(-4)],
            output: vec![Value::Int(5), Value::Int(4)],
        })
        .add_io(ProblemIO {
            input: vec![Value::Int(2), Value::Int(2)],
            output: vec![Value::Int(2)],
        })
        .build();

    program.validate(&problem).unwrap();
    assert_eq!(
        Ok(Score {
            size: 10,
            speed_min: 9,
            speed_max: 17,
            speed_total: 26,
            runs: 2,
        }),
        program.run(&problem)
    );
}
