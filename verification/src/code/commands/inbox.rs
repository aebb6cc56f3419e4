use vstd::prelude::*;

use crate::code::commands::{AnyCommand, AnyFactory, Command, CommandFactory, Instruction};
use crate::code::game_state::{GameState, Machine};
use crate::code::program::{Program, RunError};

verus! {

/// Takes the next value of the input tape in hand.
#[derive(Debug, Clone, Copy, PartialEq)]
pub struct Inbox;

/// The hand gets the next value of the input tape, and the tape moves on.
/// Where the tape has no value left, the hand is emptied instead. It never
/// fails.
pub open spec fn step(s: Machine) -> Result<Machine, RunError> {
    if s.i_input < s.input.len() {
        Ok(Machine { acc: Some(s.input[s.i_input as int]), i_input: (s.i_input + 1) as usize, ..s })
    } else {
        Ok(Machine { acc: None, ..s })
    }
}

/// The machine has just reached for a value that the input tape did not
/// have: the tape is at its end and the hand is empty.
pub open spec fn is_over(s: Machine) -> bool {
    s.acc is None && s.i_input >= s.input.len()
}

impl Default for Inbox {
    fn default() -> (r: Self)
        ensures
            r == Inbox,
    {
        Self::new()
    }
}

impl Inbox {
    /// The instruction.
    pub fn new() -> (r: Self)
        ensures
            r == Inbox,
    {
        Inbox
    }

    /// Makes the instruction of the text that follows its keyword, which has to
    /// be empty.
    pub fn create(args: &str) -> (r: Option<Self>)
        ensures
            r == if args@.len() == 0 {
                Some(Inbox)
            } else {
                None
            },
    {
        if args.is_empty() {
            Some(Inbox::new())
        } else {
            None
        }
    }
}

impl View for Inbox {
    type V = Instruction;

    open spec fn view(&self) -> Instruction {
        Instruction::Inbox
    }
}

impl Command for Inbox {
    fn execute(&self, _program: &Program, game_state: &mut GameState) -> (r: Result<(), RunError>) {
        if game_state.i_input >= game_state.input.len() {
            game_state.acc = None;
            return Ok(());
        }
        game_state.acc = Some(game_state.input[game_state.i_input]);
        game_state.i_input += 1;
        Ok(())
    }

    fn next(&self, _program: &Program, game_state: &GameState) -> (r: Result<usize, RunError>) {
        if game_state.acc.is_none() && game_state.i_input >= game_state.input.len() {
            Ok(usize::MAX)
        } else {
            Ok(game_state.i_command + 1)
        }
    }

    fn requires_index(&self) -> (r: Option<usize>) {
        None
    }

    fn requires_label(&self) -> (r: Option<&str>) {
        None
    }

    fn factory(&self) -> (r: AnyFactory) {
        AnyFactory::Inbox
    }
}

/// Makes [Inbox] instructions.
pub struct InboxFactory;

impl CommandFactory for InboxFactory {
    open spec fn keyword(&self) -> Seq<char> {
        "INBOX"@
    }

    open spec fn parse(&self, args: Seq<char>) -> Option<Instruction> {
        if args.len() == 0 {
            Some(Instruction::Inbox)
        } else {
            None
        }
    }

    fn command(&self) -> (r: &'static str) {
        "INBOX"
    }

    fn create(&self, args: &str) -> (r: Option<AnyCommand>) {
        match Inbox::create(args) {
            Some(command) => Some(AnyCommand::Inbox(command)),
            None => None,
        }
    }
}

} // verus!
