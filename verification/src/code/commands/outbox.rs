use vstd::prelude::*;

use crate::code::commands::{AnyCommand, AnyFactory, Command, CommandFactory, Instruction};
use crate::code::game_state::{GameState, Machine};
use crate::code::program::{try_get_acc, Program, RunError};
use crate::code::semantics::acc_of;

verus! {

/// Hands the value in hand out to the output tape.
#[derive(Debug, Clone, Copy, PartialEq)]
pub struct Outbox;

/// The value in hand is held against the value that the output tape expects
/// next, and the tape moves on where they are the same. It fails with an
/// empty hand, where the tape expects nothing more, and where it expects
/// another value.
pub open spec fn step(s: Machine) -> Result<Machine, RunError> {
    match acc_of(s.acc) {
        Err(error) => Err(error),
        Ok(value) => if s.i_output >= s.output.len() {
            Err(RunError::IncorrectOutput { expected: None, value: Some(value) })
        } else if value != s.output[s.i_output as int] {
            Err(
                RunError::IncorrectOutput {
                    expected: Some(s.output[s.i_output as int]),
                    value: Some(value),
                },
            )
        } else {
            Ok(Machine { i_output: (s.i_output + 1) as usize, ..s })
        },
    }
}

impl Outbox {
    /// Makes the instruction of the text that follows its keyword, which has to
    /// be empty.
    pub fn create(args: &str) -> (r: Option<Self>)
        ensures
            r == if args@.len() == 0 {
                Some(Outbox)
            } else {
                None
            },
    {
        if args.is_empty() {
            Some(Self)
        } else {
            None
        }
    }
}

impl View for Outbox {
    type V = Instruction;

    open spec fn view(&self) -> Instruction {
        Instruction::Outbox
    }
}

impl Command for Outbox {
    fn execute(&self, _program: &Program, game_state: &mut GameState) -> (r: Result<(), RunError>) {
        let value = try_get_acc(game_state.acc)?;

        if game_state.i_output >= game_state.output.len() {
            return Err(RunError::IncorrectOutput { expected: None, value: Some(value) });
        }
        if value != game_state.output[game_state.i_output] {
            return Err(
                RunError::IncorrectOutput {
                    expected: Some(game_state.output[game_state.i_output]),
                    value: Some(value),
                },
            );
        }
        game_state.i_output += 1;
        Ok(())
    }

    fn next(&self, _program: &Program, game_state: &GameState) -> (r: Result<usize, RunError>) {
        Ok(game_state.i_command + 1)
    }

    fn requires_index(&self) -> (r: Option<usize>) {
        None
    }

    fn requires_label(&self) -> (r: Option<&str>) {
        None
    }

    fn factory(&self) -> (r: AnyFactory) {
        AnyFactory::Outbox
    }
}

/// Makes [Outbox] instructions.
pub struct OutboxFactory;

impl CommandFactory for OutboxFactory {
    open spec fn keyword(&self) -> Seq<char> {
        "OUTBOX"@
    }

    open spec fn parse(&self, args: Seq<char>) -> Option<Instruction> {
        if args.len() == 0 {
            Some(Instruction::Outbox)
        } else {
            None
        }
    }

    fn command(&self) -> (r: &'static str) {
        "OUTBOX"
    }

    fn create(&self, args: &str) -> (r: Option<AnyCommand>) {
        match Outbox::create(args) {
            Some(command) => Some(AnyCommand::Outbox(command)),
            None => None,
        }
    }
}

} // verus!
