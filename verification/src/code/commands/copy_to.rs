use vstd::prelude::*;

use crate::code::commands::{
    AnyCommand, AnyFactory, Command, CommandFactory, CommandValue, Instruction,
};
use crate::code::game_state::{GameState, Machine};
use crate::code::program::{try_get_acc, try_get_slot, Program, RunError};
use crate::code::semantics::{acc_of, slot_of};
use crate::compiler::compile::compile_command_value;
use crate::compiler::grammar::command_value_of;

verus! {

/// Puts a copy of the value in hand into a cell.
#[derive(Debug, Clone, Copy, PartialEq)]
pub struct CopyTo(pub CommandValue);

/// The cell that the operand stands for gets the value in hand. It fails
/// with an empty hand, and where the operand stands for no cell.
pub open spec fn step(operand: CommandValue, s: Machine) -> Result<Machine, RunError> {
    match acc_of(s.acc) {
        Err(error) => Err(error),
        Ok(value) => match slot_of(operand, s.memory) {
            Err(error) => Err(error),
            Ok(index) => Ok(Machine { memory: s.memory.update(index as int, Some(value)), ..s }),
        },
    }
}

impl CopyTo {
    /// Makes the instruction of the text that follows its keyword: an operand,
    /// and nothing else.
    pub fn create(args: &str) -> (r: Option<Self>)
        ensures
            r == match command_value_of(args@) {
                Some(operand) => Some(CopyTo(operand)),
                None => None,
            },
    {
        match compile_command_value(args) {
            Some(operand) => Some(CopyTo(operand)),
            None => None,
        }
    }
}

impl View for CopyTo {
    type V = Instruction;

    open spec fn view(&self) -> Instruction {
        Instruction::CopyTo(self.0)
    }
}

impl Command for CopyTo {
    fn execute(&self, _program: &Program, game_state: &mut GameState) -> (r: Result<(), RunError>) {
        let value = try_get_acc(game_state.acc)?;
        let index = try_get_slot(&self.0, &game_state.memory)?;
        game_state.memory[index] = Some(value);
        Ok(())
    }

    fn next(&self, _program: &Program, game_state: &GameState) -> (r: Result<usize, RunError>) {
        Ok(game_state.i_command + 1)
    }

    fn requires_index(&self) -> (r: Option<usize>) {
        match self.0 {
            CommandValue::Value(_) => None,
            CommandValue::Index(idx) => Some(idx),
        }
    }

    fn requires_label(&self) -> (r: Option<&str>) {
        None
    }

    fn factory(&self) -> (r: AnyFactory) {
        AnyFactory::CopyTo
    }
}

/// Makes [CopyTo] instructions.
pub struct CopyToFactory;

impl CommandFactory for CopyToFactory {
    open spec fn keyword(&self) -> Seq<char> {
        "COPYTO"@
    }

    open spec fn parse(&self, args: Seq<char>) -> Option<Instruction> {
        match command_value_of(args) {
            Some(operand) => Some(Instruction::CopyTo(operand)),
            None => None,
        }
    }

    fn command(&self) -> (r: &'static str) {
        "COPYTO"
    }

    fn create(&self, args: &str) -> (r: Option<AnyCommand>) {
        match CopyTo::create(args) {
            Some(command) => Some(AnyCommand::CopyTo(command)),
            None => None,
        }
    }
}

} // verus!
