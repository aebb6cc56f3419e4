use vstd::prelude::*;

use crate::code::commands::{AnyCommand, AnyFactory, Command, CommandFactory, Instruction};
use crate::code::game_state::GameState;
use crate::code::program::{try_get_label, Program, RunError};
use crate::compiler::compile::compile_label;
use crate::compiler::grammar::is_label;

verus! {

/// Goes on at a label.
#[derive(Debug, Clone, PartialEq)]
pub struct Jump(pub String);

impl Jump {
    /// Makes the instruction of the text that follows its keyword: a label, and
    /// nothing else.
    pub fn create(args: &str) -> (r: Option<Self>)
        ensures
            match r {
                Some(command) => is_label(args@) && command.0@ == args@,
                None => !is_label(args@),
            },
    {
        match compile_label(args) {
            Some(label) => Some(Jump(label)),
            None => None,
        }
    }
}

impl View for Jump {
    type V = Instruction;

    open spec fn view(&self) -> Instruction {
        Instruction::Jump(self.0@)
    }
}

impl Command for Jump {
    fn execute(&self, _program: &Program, game_state: &mut GameState) -> (r: Result<(), RunError>) {
        Ok(())
    }

    fn next(&self, program: &Program, game_state: &GameState) -> (r: Result<usize, RunError>) {
        try_get_label(program, self.0.as_str())
    }

    fn requires_index(&self) -> (r: Option<usize>) {
        None
    }

    fn requires_label(&self) -> (r: Option<&str>) {
        Some(self.0.as_str())
    }

    fn factory(&self) -> (r: AnyFactory) {
        AnyFactory::Jump
    }
}

/// Makes [Jump] instructions.
pub struct JumpFactory;

impl CommandFactory for JumpFactory {
    open spec fn keyword(&self) -> Seq<char> {
        "JUMP"@
    }

    open spec fn parse(&self, args: Seq<char>) -> Option<Instruction> {
        if is_label(args) {
            Some(Instruction::Jump(args))
        } else {
            None
        }
    }

    fn command(&self) -> (r: &'static str) {
        "JUMP"
    }

    fn create(&self, args: &str) -> (r: Option<AnyCommand>) {
        match Jump::create(args) {
            Some(command) => Some(AnyCommand::Jump(command)),
            None => None,
        }
    }
}

} // verus!
