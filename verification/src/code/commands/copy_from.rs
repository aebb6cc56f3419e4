use vstd::prelude::*;

use crate::code::commands::{
    AnyCommand, AnyFactory, Command, CommandFactory, CommandValue, Instruction,
};
use crate::code::game_state::{GameState, Machine};
use crate::code::program::{try_get_from_memory, try_get_slot, Program, RunError};
use crate::code::semantics::{cell_of, slot_of};
use crate::compiler::compile::compile_command_value;
use crate::compiler::grammar::command_value_of;

verus! {

/// Takes a copy of the value of a cell in hand.
#[derive(Debug, Clone, Copy, PartialEq)]
pub struct CopyFrom(pub CommandValue);

/// The hand gets the value of the cell that the operand stands for. It fails
/// where the operand stands for no cell, and on an empty cell.
pub open spec fn step(operand: CommandValue, s: Machine) -> Result<Machine, RunError> {
    match slot_of(operand, s.memory) {
        Err(error) => Err(error),
        Ok(index) => match cell_of(s.memory[index as int]) {
            Err(error) => Err(error),
            Ok(value) => Ok(Machine { acc: Some(value), ..s }),
        },
    }
}

impl CopyFrom {
    /// Makes the instruction of the text that follows its keyword: an operand,
    /// and nothing else.
    pub fn create(args: &str) -> (r: Option<Self>)
        ensures
            r == match command_value_of(args@) {
                Some(operand) => Some(CopyFrom(operand)),
                None => None,
            },
    {
        match compile_command_value(args) {
            Some(operand) => Some(CopyFrom(operand)),
            None => None,
        }
    }
}

impl View for CopyFrom {
    type V = Instruction;

    open spec fn view(&self) -> Instruction {
        Instruction::CopyFrom(self.0)
    }
}

impl Command for CopyFrom {
    fn execute(&self, _program: &Program, game_state: &mut GameState) -> (r: Result<(), RunError>) {
        let index = try_get_slot(&self.0, &game_state.memory)?;
        game_state.acc = Some(try_get_from_memory(game_state.memory[index])?);
        Ok(())
    }

    fn next(&self, _program: &Program, game_state: &GameState) -> (r: Result<usize, RunError>) {
        Ok(game_state.i_command + 1)
    }

    fn requires_index(&self) -> (r: Option<usize>) {
        match self.0 {
            CommandValue::Value(_) => None,
            CommandValue::Index(idx) => Some(idx),
        }
    }

    fn requires_label(&self) -> (r: Option<&str>) {
        None
    }

    fn factory(&self) -> (r: AnyFactory) {
        AnyFactory::CopyFrom
    }
}

/// Makes [CopyFrom] instructions.
pub struct CopyFromFactory;

impl CommandFactory for CopyFromFactory {
    open spec fn keyword(&self) -> Seq<char> {
        "COPYFROM"@
    }

    open spec fn parse(&self, args: Seq<char>) -> Option<Instruction> {
        match command_value_of(args) {
            Some(operand) => Some(Instruction::CopyFrom(operand)),
            None => None,
        }
    }

    fn command(&self) -> (r: &'static str) {
        "COPYFROM"
    }

    fn create(&self, args: &str) -> (r: Option<AnyCommand>) {
        match CopyFrom::create(args) {
            Some(command) => Some(AnyCommand::CopyFrom(command)),
            None => None,
        }
    }
}

} // verus!
