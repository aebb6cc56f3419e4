use vstd::prelude::*;

use crate::code::commands::{AnyCommand, AnyFactory, Command, CommandFactory, Instruction};
use crate::code::game_state::GameState;
use crate::code::program::{try_get_acc, try_get_label, Program, RunError};
use crate::compiler::compile::compile_label;
use crate::compiler::grammar::is_label;

verus! {

/// Goes on at a label if the value in hand is a number below zero.
#[derive(Debug, Clone, PartialEq)]
pub struct JumpNegative(pub String);

impl JumpNegative {
    /// Makes the instruction of the text that follows its keyword: a label, and
    /// nothing else.
    pub fn create(args: &str) -> (r: Option<Self>)
        ensures
            match r {
                Some(command) => is_label(args@) && command.0@ == args@,
                None => !is_label(args@),
            },
    {
        match compile_label(args) {
            Some(label) => Some(JumpNegative(label)),
            None => None,
        }
    }
}

impl View for JumpNegative {
    type V = Instruction;

    open spec fn view(&self) -> Instruction {
        Instruction::JumpNegative(self.0@)
    }
}

impl Command for JumpNegative {
    fn execute(&self, _program: &Program, game_state: &mut GameState) -> (r: Result<(), RunError>) {
        match try_get_acc(game_state.acc) {
            Ok(_) => Ok(()),
            Err(error) => Err(error),
        }
    }

    fn next(&self, program: &Program, game_state: &GameState) -> (r: Result<usize, RunError>) {
        if try_get_acc(game_state.acc)? < 0 {
            try_get_label(program, self.0.as_str())
        } else {
            Ok(game_state.i_command + 1)
        }
    }

    fn requires_index(&self) -> (r: Option<usize>) {
        None
    }

    fn requires_label(&self) -> (r: Option<&str>) {
        Some(self.0.as_str())
    }

    fn factory(&self) -> (r: AnyFactory) {
        AnyFactory::JumpNegative
    }
}

/// Makes [JumpNegative] instructions.
pub struct JumpNegativeFactory;

impl CommandFactory for JumpNegativeFactory {
    open spec fn keyword(&self) -> Seq<char> {
        "JUMPN"@
    }

    open spec fn parse(&self, args: Seq<char>) -> Option<Instruction> {
        if is_label(args) {
            Some(Instruction::JumpNegative(args))
        } else {
            None
        }
    }

    fn command(&self) -> (r: &'static str) {
        "JUMPN"
    }

    fn create(&self, args: &str) -> (r: Option<AnyCommand>) {
        match JumpNegative::create(args) {
            Some(command) => Some(AnyCommand::JumpNegative(command)),
            None => None,
        }
    }
}

} // verus!
