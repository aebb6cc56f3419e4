use vstd::prelude::*;

use crate::code::commands::{
    AnyCommand, AnyFactory, Command, CommandFactory, CommandValue, Instruction,
};
use crate::code::game_state::{GameState, Machine};
use crate::code::program::{try_get_from_memory, try_get_slot, Program, RunError};
use crate::code::semantics::{cell_of, slot_of};
use crate::compiler::compile::compile_command_value;
use crate::compiler::grammar::command_value_of;
use crate::game::value::Value;

verus! {

/// Adds one to the value of a cell and takes the result in hand.
#[derive(Debug, Clone, Copy, PartialEq)]
pub struct BumpUp(pub CommandValue);

/// The cell that the operand stands for, and the hand, get the cell's value
/// plus one. It fails where the operand stands for no cell, on an empty
/// cell, and on a cell that holds a letter.
pub open spec fn step(operand: CommandValue, s: Machine) -> Result<Machine, RunError> {
    match slot_of(operand, s.memory) {
        Err(error) => Err(error),
        Ok(index) => match cell_of(s.memory[index as int]) {
            Err(error) => Err(error),
            Ok(to_bump) => match to_bump.spec_add(Value::Int(1)) {
                None => Err(RunError::Add),
                Some(bumped) => Ok(
                    Machine { memory: s.memory.update(index as int, Some(bumped)), acc: Some(bumped), ..s },
                ),
            },
        },
    }
}

impl BumpUp {
    /// Makes the instruction of the text that follows its keyword: an operand,
    /// and nothing else.
    pub fn create(args: &str) -> (r: Option<Self>)
        ensures
            r == match command_value_of(args@) {
                Some(operand) => Some(BumpUp(operand)),
                None => None,
            },
    {
        match compile_command_value(args) {
            Some(operand) => Some(BumpUp(operand)),
            None => None,
        }
    }
}

impl View for BumpUp {
    type V = Instruction;

    open spec fn view(&self) -> Instruction {
        Instruction::BumpUp(self.0)
    }
}

impl Command for BumpUp {
    fn execute(&self, _program: &Program, game_state: &mut GameState) -> (r: Result<(), RunError>) {
        let index = try_get_slot(&self.0, &game_state.memory)?;
        let to_bump = try_get_from_memory(game_state.memory[index])?;
        let bumped = match to_bump.add(Value::Int(1)) {
            Some(bumped) => bumped,
            None => return Err(RunError::Add),
        };
        game_state.memory[index] = Some(bumped);
        game_state.acc = Some(bumped);
        Ok(())
    }

    fn next(&self, _program: &Program, game_state: &GameState) -> (r: Result<usize, RunError>) {
        Ok(game_state.i_command + 1)
    }

    fn requires_index(&self) -> (r: Option<usize>) {
        match self.0 {
            CommandValue::Value(_) => None,
            CommandValue::Index(idx) => Some(idx),
        }
    }

    fn requires_label(&self) -> (r: Option<&str>) {
        None
    }

    fn factory(&self) -> (r: AnyFactory) {
        AnyFactory::BumpUp
    }
}

/// Makes [BumpUp] instructions.
pub struct BumpUpFactory;

impl CommandFactory for BumpUpFactory {
    open spec fn keyword(&self) -> Seq<char> {
        "BUMPUP"@
    }

    open spec fn parse(&self, args: Seq<char>) -> Option<Instruction> {
        match command_value_of(args) {
            Some(operand) => Some(Instruction::BumpUp(operand)),
            None => None,
        }
    }

    fn command(&self) -> (r: &'static str) {
        "BUMPUP"
    }

    fn create(&self, args: &str) -> (r: Option<AnyCommand>) {
        match BumpUp::create(args) {
            Some(command) => Some(AnyCommand::BumpUp(command)),
            None => None,
        }
    }
}

} // verus!
