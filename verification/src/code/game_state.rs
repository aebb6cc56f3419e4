//! The machine that a program runs on.

use vstd::prelude::*;

use crate::game::value::Value;

verus! {

/// The cells of the machine, each empty or holding one value.
pub type Memory = Vec<Option<Value>>;

/// The machine while it works through one pair of tapes.
pub struct GameState<'a> {
    pub input: &'a Vec<Value>,
    pub output: &'a Vec<Value>,
    pub memory: Memory,
    pub acc: Option<Value>,
    pub i_input: usize,
    pub i_output: usize,
    pub i_command: usize,
    pub speed: u32,
}

/// The machine as a mathematical value: both tapes, the cells, what is held
/// in hand, the three cursors and the count of steps taken.
pub struct Machine {
    pub input: Seq<Value>,
    pub output: Seq<Value>,
    pub memory: Seq<Option<Value>>,
    pub acc: Option<Value>,
    pub i_input: usize,
    pub i_output: usize,
    pub i_command: usize,
    pub speed: u32,
}

impl Machine {
    /// The machine before its first step: nothing in hand, every cursor at
    /// the start, no step counted.
    pub open spec fn start(input: Seq<Value>, output: Seq<Value>, memory: Seq<Option<Value>>) -> Machine {
        Machine {
            input,
            output,
            memory,
            acc: None,
            i_input: 0,
            i_output: 0,
            i_command: 0,
            speed: 0,
        }
    }
}

impl<'a> View for GameState<'a> {
    type V = Machine;

    open spec fn view(&self) -> Machine {
        Machine {
            input: self.input@,
            output: self.output@,
            memory: self.memory@,
            acc: self.acc,
            i_input: self.i_input,
            i_output: self.i_output,
            i_command: self.i_command,
            speed: self.speed,
        }
    }
}

impl<'a> GameState<'a> {
    /// The machine before its first step.
    pub fn new(input: &'a Vec<Value>, output: &'a Vec<Value>, memory: Memory) -> (state: Self)
        ensures
            state@ == Machine::start(input@, output@, memory@),
    {
        Self { input, output, memory, acc: None, i_input: 0, i_output: 0, i_command: 0, speed: 0 }
    }
}

} // verus!
