use vstd::prelude::*;

use crate::code::commands::{AnyCommand, AnyFactory, Command, CommandFactory, Instruction};
use crate::code::game_state::GameState;
use crate::code::program::{try_get_acc, try_get_label, Program, RunError};
use crate::compiler::compile::compile_label;
use crate::compiler::grammar::is_label;

verus! {

/// Goes on at a label if the value in hand is the number zero.
#[derive(Debug, Clone, PartialEq)]
pub struct JumpZero(pub String);

impl JumpZero {
    /// Makes the instruction of the text that follows its keyword: a label, and
    /// nothing else.
    pub fn create(args: &str) -> (r: Option<Self>)
        ensures
            match r {
                Some(command) => is_label(args@) && command.0@ == args@,
                None => !is_label(args@),
            },
    {
        match compile_label(args) {
            Some(label) => Some(JumpZero(label)),
            None => None,
        }
    }
}

impl View for JumpZero {
    type V = Instruction;

    open spec fn view(&self) -> Instruction {
        Instruction::JumpZero(self.0@)
    }
}

impl Command for JumpZero {
    fn execute(&self, _program: &Program, game_state: &mut GameState) -> (r: Result<(), RunError>) {
        match try_get_acc(game_state.acc) {
            Ok(_) => Ok(()),
            Err(error) => Err(error),
        }
    }

    fn next(&self, program: &Program, game_state: &GameState) -> (r: Result<usize, RunError>) {
        if try_get_acc(game_state.acc)? == 0 {
            try_get_label(program, self.0.as_str())
        } else {
            Ok(game_state.i_command + 1)
        }
    }

    fn requires_index(&self) -> (r: Option<usize>) {
        None
    }

    fn requires_label(&self) -> (r: Option<&str>) {
        Some(self.0.as_str())
    }

    fn factory(&self) -> (r: AnyFactory) {
        AnyFactory::JumpZero
    }
}

/// Makes [JumpZero] instructions.
pub struct JumpZeroFactory;

impl CommandFactory for JumpZeroFactory {
    open spec fn keyword(&self) -> Seq<char> {
        "JUMPZ"@
    }

    open spec fn parse(&self, args: Seq<char>) -> Option<Instruction> {
        if is_label(args) {
            Some(Instruction::JumpZero(args))
        } else {
            None
        }
    }

    fn command(&self) -> (r: &'static str) {
        "JUMPZ"
    }

    fn create(&self, args: &str) -> (r: Option<AnyCommand>) {
        match JumpZero::create(args) {
            Some(command) => Some(AnyCommand::JumpZero(command)),
            None => None,
        }
    }
}

} // verus!
