use vstd::prelude::*;

use crate::code::commands::{
    AnyCommand, AnyFactory, Command, CommandFactory, CommandValue, Instruction,
};
use crate::code::game_state::{GameState, Machine};
use crate::code::program::{try_get_acc, try_get_from_memory, try_get_slot, Program, RunError};
use crate::code::semantics::{acc_of, cell_of, slot_of};
use crate::compiler::compile::compile_command_value;
use crate::compiler::grammar::command_value_of;

verus! {

/// Adds the value of a cell to the value in hand.
#[derive(Debug, Clone, Copy, PartialEq)]
pub struct Add(pub CommandValue);

/// The value in hand becomes its sum with the value of the cell that the
/// operand stands for. It fails with an empty hand, where the operand stands
/// for no cell, on an empty cell, and where the sum is not defined.
pub open spec fn step(operand: CommandValue, s: Machine) -> Result<Machine, RunError> {
    match acc_of(s.acc) {
        Err(error) => Err(error),
        Ok(value) => match slot_of(operand, s.memory) {
            Err(error) => Err(error),
            Ok(index) => match cell_of(s.memory[index as int]) {
                Err(error) => Err(error),
                Ok(to_add) => match value.spec_add(to_add) {
                    None => Err(RunError::Add),
                    Some(sum) => Ok(Machine { acc: Some(sum), ..s }),
                },
            },
        },
    }
}

impl Add {
    /// Makes the instruction of the text that follows its keyword: an operand,
    /// and nothing else.
    pub fn create(args: &str) -> (r: Option<Self>)
        ensures
            r == match command_value_of(args@) {
                Some(operand) => Some(Add(operand)),
                None => None,
            },
    {
        match compile_command_value(args) {
            Some(operand) => Some(Add(operand)),
            None => None,
        }
    }
}

impl View for Add {
    type V = Instruction;

    open spec fn view(&self) -> Instruction {
        Instruction::Add(self.0)
    }
}

impl Command for Add {
    fn execute(&self, _program: &Program, game_state: &mut GameState) -> (r: Result<(), RunError>) {
        let value = try_get_acc(game_state.acc)?;
        let index = try_get_slot(&self.0, &game_state.memory)?;
        let to_add = try_get_from_memory(game_state.memory[index])?;
        let sum = match value.add(to_add) {
            Some(sum) => sum,
            None => return Err(RunError::Add),
        };
        game_state.acc = Some(sum);
        Ok(())
    }

    fn next(&self, _program: &Program, game_state: &GameState) -> (r: Result<usize, RunError>) {
        Ok(game_state.i_command + 1)
    }

    fn requires_index(&self) -> (r: Option<usize>) {
        match self.0 {
            CommandValue::Value(_) => None,
            CommandValue::Index(idx) => Some(idx),
        }
    }

    fn requires_label(&self) -> (r: Option<&str>) {
        None
    }

    fn factory(&self) -> (r: AnyFactory) {
        AnyFactory::Add
    }
}

/// Makes [Add] instructions.
pub struct AddFactory;

impl CommandFactory for AddFactory {
    open spec fn keyword(&self) -> Seq<char> {
        "ADD"@
    }

    open spec fn parse(&self, args: Seq<char>) -> Option<Instruction> {
        match command_value_of(args) {
            Some(operand) => Some(Instruction::Add(operand)),
            None => None,
        }
    }

    fn command(&self) -> (r: &'static str) {
        "ADD"
    }

    fn create(&self, args: &str) -> (r: Option<AnyCommand>) {
        match Add::create(args) {
            Some(command) => Some(AnyCommand::Add(command)),
            None => None,
        }
    }
}

} // verus!
