use vstd::prelude::*;

use crate::code::commands::{
    AnyCommand, AnyFactory, Command, CommandFactory, CommandValue, Instruction,
};
use crate::code::game_state::{GameState, Machine};
use crate::code::program::{try_get_acc, try_get_from_memory, try_get_slot, Program, RunError};
use crate::code::semantics::{acc_of, cell_of, slot_of};
use crate::compiler::compile::compile_command_value;
use crate::compiler::grammar::command_value_of;

verus! {

/// Subtracts the value of a cell from the value in hand.
#[derive(Debug, Clone, Copy, PartialEq)]
pub struct Sub(pub CommandValue);

/// The value in hand becomes its difference with the value of the cell that
/// the operand stands for. It fails with an empty hand, where the operand
/// stands for no cell, on an empty cell, and where the difference is not
/// defined.
pub open spec fn step(operand: CommandValue, s: Machine) -> Result<Machine, RunError> {
    match acc_of(s.acc) {
        Err(error) => Err(error),
        Ok(value) => match slot_of(operand, s.memory) {
            Err(error) => Err(error),
            Ok(index) => match cell_of(s.memory[index as int]) {
                Err(error) => Err(error),
                Ok(to_sub) => match value.spec_sub(to_sub) {
                    None => Err(RunError::Sub),
                    Some(difference) => Ok(Machine { acc: Some(difference), ..s }),
                },
            },
        },
    }
}

impl Sub {
    /// Makes the instruction of the text that follows its keyword: an operand,
    /// and nothing else.
    pub fn create(args: &str) -> (r: Option<Self>)
        ensures
            r == match command_value_of(args@) {
                Some(operand) => Some(Sub(operand)),
                None => None,
            },
    {
        match compile_command_value(args) {
            Some(operand) => Some(Sub(operand)),
            None => None,
        }
    }
}

impl View for Sub {
    type V = Instruction;

    open spec fn view(&self) -> Instruction {
        Instruction::Sub(self.0)
    }
}

impl Command for Sub {
    fn execute(&self, _program: &Program, game_state: &mut GameState) -> (r: Result<(), RunError>) {
        let value = try_get_acc(game_state.acc)?;
        let index = try_get_slot(&self.0, &game_state.memory)?;
        let to_sub = try_get_from_memory(game_state.memory[index])?;
        let difference = match value.sub(to_sub) {
            Some(difference) => difference,
            None => return Err(RunError::Sub),
        };
        game_state.acc = Some(difference);
        Ok(())
    }

    fn next(&self, _program: &Program, game_state: &GameState) -> (r: Result<usize, RunError>) {
        Ok(game_state.i_command + 1)
    }

    fn requires_index(&self) -> (r: Option<usize>) {
        match self.0 {
            CommandValue::Value(_) => None,
            CommandValue::Index(idx) => Some(idx),
        }
    }

    fn requires_label(&self) -> (r: Option<&str>) {
        None
    }

    fn factory(&self) -> (r: AnyFactory) {
        AnyFactory::Sub
    }
}

/// Makes [Sub] instructions.
pub struct SubFactory;

impl CommandFactory for SubFactory {
    open spec fn keyword(&self) -> Seq<char> {
        "SUB"@
    }

    open spec fn parse(&self, args: Seq<char>) -> Option<Instruction> {
        match command_value_of(args) {
            Some(operand) => Some(Instruction::Sub(operand)),
            None => None,
        }
    }

    fn command(&self) -> (r: &'static str) {
        "SUB"
    }

    fn create(&self, args: &str) -> (r: Option<AnyCommand>) {
        match Sub::create(args) {
            Some(command) => Some(AnyCommand::Sub(command)),
            None => None,
        }
    }
}

} // verus!
