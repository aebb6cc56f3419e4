//! The instructions: what each kind does, and the factories that make them
//! of source text.

use vstd::prelude::*;

use crate::code::commands::add::AddFactory;
use crate::code::commands::bump_down::{BumpDown, BumpDownFactory};
use crate::code::commands::bump_up::{BumpUp, BumpUpFactory};
use crate::code::commands::copy_from::{CopyFrom, CopyFromFactory};
use crate::code::commands::copy_to::{CopyTo, CopyToFactory};
use crate::code::commands::inbox::{Inbox, InboxFactory};
use crate::code::commands::jump::{Jump, JumpFactory};
use crate::code::commands::jump_negative::{JumpNegative, JumpNegativeFactory};
use crate::code::commands::jump_zero::{JumpZero, JumpZeroFactory};
use crate::code::commands::outbox::{Outbox, OutboxFactory};
use crate::code::commands::sub::SubFactory;
use crate::code::game_state::{GameState, Machine};
use crate::code::program::{Program, RunError};
use crate::code::semantics::ProgramModel;

pub mod add;
pub mod bump_down;
pub mod bump_up;
pub mod copy_from;
pub mod copy_to;
pub mod inbox;
pub mod jump;
pub mod jump_negative;
pub mod jump_zero;
pub mod outbox;
pub mod sub;

verus! {

/// The keyword of every instruction.
pub const ALL_COMMANDS: [&'static str; 11] = [
    "INBOX",
    "OUTBOX",
    "COPYFROM",
    "COPYTO",
    "ADD",
    "SUB",
    "BUMPUP",
    "BUMPDN",
    "JUMP",
    "JUMPZ",
    "JUMPN",
];

/// How an instruction names a memory cell.
#[derive(Debug, Copy, Clone, PartialEq, Eq, Structural)]
pub enum CommandValue {
    /// The cell with this index.
    Value(usize),
    /// The cell whose index the cell with this index holds.
    Index(usize),
}

impl CommandValue {
    /// The number that the operand is written with: the index of the cell it
    /// names, which every operand of either form has to find in the memory.
    pub open spec fn number(self) -> usize {
        match self {
            CommandValue::Value(index) => index,
            CommandValue::Index(index) => index,
        }
    }
}

/// An instruction as a mathematical value.
pub enum Instruction {
    Inbox,
    Outbox,
    CopyFrom(CommandValue),
    CopyTo(CommandValue),
    Add(CommandValue),
    Sub(CommandValue),
    BumpUp(CommandValue),
    BumpDown(CommandValue),
    Jump(Seq<char>),
    JumpZero(Seq<char>),
    JumpNegative(Seq<char>),
}

/// The cell from which an operand reads an index, whatever the memory holds:
/// the cell that an indirect operand names.
pub open spec fn index_required_by(command_value: CommandValue) -> Option<usize> {
    match command_value {
        CommandValue::Value(_) => None,
        CommandValue::Index(index) => Some(index),
    }
}

/// Where a jump to `label` leads: to the position that the label stands for,
/// which must not lie behind the program's end.
pub open spec fn jump_target(program: ProgramModel, label: Seq<char>) -> Result<usize, RunError> {
    match program.label(label) {
        None => Err(RunError::MissingLabel),
        Some(target) => if target <= program.commands.len() {
            Ok(target)
        } else {
            Err(RunError::LabelIndex(target))
        },
    }
}

/// The position after the one the machine is at.
pub open spec fn following(s: Machine) -> usize {
    (s.i_command + 1) as usize
}

impl Instruction {
    /// The factory that makes instructions of this kind.
    pub open spec fn factory(self) -> AnyFactory {
        match self {
            Instruction::Inbox => AnyFactory::Inbox,
            Instruction::Outbox => AnyFactory::Outbox,
            Instruction::CopyFrom(_) => AnyFactory::CopyFrom,
            Instruction::CopyTo(_) => AnyFactory::CopyTo,
            Instruction::Add(_) => AnyFactory::Add,
            Instruction::Sub(_) => AnyFactory::Sub,
            Instruction::BumpUp(_) => AnyFactory::BumpUp,
            Instruction::BumpDown(_) => AnyFactory::BumpDown,
            Instruction::Jump(_) => AnyFactory::Jump,
            Instruction::JumpZero(_) => AnyFactory::JumpZero,
            Instruction::JumpNegative(_) => AnyFactory::JumpNegative,
        }
    }

    /// The word that names this kind of instruction in source text and in a
    /// problem's list of allowed instructions.
    pub open spec fn keyword(self) -> Seq<char> {
        self.factory().keyword()
    }

    /// The operand of the instruction, if it is one that works on a cell.
    pub open spec fn operand(self) -> Option<CommandValue> {
        match self {
            Instruction::CopyFrom(operand)
            | Instruction::CopyTo(operand)
            | Instruction::Add(operand)
            | Instruction::Sub(operand)
            | Instruction::BumpUp(operand)
            | Instruction::BumpDown(operand) => Some(operand),
            _ => None,
        }
    }

    /// The cell from which the instruction reads an index, whatever the
    /// memory holds.
    pub open spec fn requires_index(self) -> Option<usize> {
        match self {
            Instruction::CopyFrom(operand)
            | Instruction::CopyTo(operand)
            | Instruction::Add(operand)
            | Instruction::Sub(operand)
            | Instruction::BumpUp(operand)
            | Instruction::BumpDown(operand) => index_required_by(operand),
            _ => None,
        }
    }

    /// The label that has to exist for the instruction to work at all.
    pub open spec fn requires_label(self) -> Option<Seq<char>> {
        match self {
            Instruction::Jump(label)
            | Instruction::JumpZero(label)
            | Instruction::JumpNegative(label) => Some(label),
            _ => None,
        }
    }

    /// What the instruction does to the machine, but for the move to the
    /// next position.
    pub open spec fn execute(self, s: Machine) -> Result<Machine, RunError> {
        match self {
            Instruction::Inbox => inbox::step(s),
            Instruction::Outbox => outbox::step(s),
            Instruction::CopyFrom(operand) => copy_from::step(operand, s),
            Instruction::CopyTo(operand) => copy_to::step(operand, s),
            Instruction::Add(operand) => add::step(operand, s),
            Instruction::Sub(operand) => sub::step(operand, s),
            Instruction::BumpUp(operand) => bump_up::step(operand, s),
            Instruction::BumpDown(operand) => bump_down::step(operand, s),
            Instruction::Jump(_) => Ok(s),
            Instruction::JumpZero(_) | Instruction::JumpNegative(_) => match s.acc {
                Some(_) => Ok(s),
                None => Err(RunError::EmptyAcc),
            },
        }
    }

    /// The position the machine moves to, for a machine as the instruction
    /// left it.
    pub open spec fn next(self, program: ProgramModel, s: Machine) -> Result<usize, RunError> {
        match self {
            Instruction::Inbox => if inbox::is_over(s) {
                Ok(usize::MAX)
            } else {
                Ok(following(s))
            },
            Instruction::Jump(label) => jump_target(program, label),
            Instruction::JumpZero(label) => match s.acc {
                None => Err(RunError::EmptyAcc),
                Some(value) => if value.is_zero() {
                    jump_target(program, label)
                } else {
                    Ok(following(s))
                },
            },
            Instruction::JumpNegative(label) => match s.acc {
                None => Err(RunError::EmptyAcc),
                Some(value) => if value.is_negative() {
                    jump_target(program, label)
                } else {
                    Ok(following(s))
                },
            },
            _ => Ok(following(s)),
        }
    }
}

/// What every instruction offers.
pub trait Command: View<V = Instruction> {
    /// Execute
    ///
    /// Execute the command on the machine. The position in the program stays
    /// as it is. Where the command fails, the machine stays as it was.
    fn execute(&self, program: &Program, game_state: &mut GameState) -> (r: Result<(), RunError>)
        ensures
            match self@.execute(old(game_state)@) {
                Ok(after) => r is Ok && final(game_state)@ == after,
                Err(error) => r == Err::<(), RunError>(error) && final(game_state)@ == old(game_state)@,
            },
    ;

    /// Next
    ///
    /// Get next command index, for a machine on which the command has just
    /// been executed.
    fn next(&self, program: &Program, game_state: &GameState) -> (r: Result<usize, RunError>)
        requires
            game_state.i_command < usize::MAX,
        ensures
            r == self@.next(program@, game_state@),
    ;

    /// Requires Index
    ///
    /// Returns [Some(usize)] if an index must exist for the command to work, else [None].
    fn requires_index(&self) -> (r: Option<usize>)
        ensures
            r == self@.requires_index(),
    ;

    /// Requires Label
    ///
    /// Returns [Some(&str)] if a label must exist for the command to work, else [None].
    fn requires_label(&self) -> (r: Option<&str>)
        ensures
            match r {
                Some(label) => self@.requires_label() == Some(label@),
                None => self@.requires_label() is None,
            },
    ;

    /// Factory
    ///
    /// Returns factory for given command.
    fn factory(&self) -> (r: AnyFactory)
        ensures
            r == self@.factory(),
    ;
}

/// What makes instructions of one kind out of source text.
pub trait CommandFactory {
    /// The keyword of the instructions that the factory makes.
    spec fn keyword(&self) -> Seq<char>;

    /// The instruction that the factory makes of the text that follows the
    /// keyword, if it makes one.
    spec fn parse(&self, args: Seq<char>) -> Option<Instruction>;

    /// Command
    ///
    /// Returns command keyword.
    fn command(&self) -> (r: &'static str)
        ensures
            r@ == self.keyword(),
    ;

    /// Create Command
    ///
    /// Returns [Some(AnyCommand)] if successful, else [None].
    fn create(&self, args: &str) -> (r: Option<AnyCommand>)
        ensures
            match r {
                Some(command) => self.parse(args@) == Some(command@),
                None => self.parse(args@) is None,
            },
    ;
}

/// An instruction of any kind.
#[derive(Debug, Clone, PartialEq)]
pub enum AnyCommand {
    Add(add::Add),
    BumpDown(BumpDown),
    BumpUp(BumpUp),
    CopyFrom(CopyFrom),
    CopyTo(CopyTo),
    Inbox(Inbox),
    Jump(Jump),
    JumpNegative(JumpNegative),
    JumpZero(JumpZero),
    Outbox(Outbox),
    Sub(sub::Sub),
}

impl View for AnyCommand {
    type V = Instruction;

    open spec fn view(&self) -> Instruction {
        match self {
            AnyCommand::Add(command) => command@,
            AnyCommand::BumpDown(command) => command@,
            AnyCommand::BumpUp(command) => command@,
            AnyCommand::CopyFrom(command) => command@,
            AnyCommand::CopyTo(command) => command@,
            AnyCommand::Inbox(command) => command@,
            AnyCommand::Jump(command) => command@,
            AnyCommand::JumpNegative(command) => command@,
            AnyCommand::JumpZero(command) => command@,
            AnyCommand::Outbox(command) => command@,
            AnyCommand::Sub(command) => command@,
        }
    }
}

impl AnyCommand {
    /// The operand of the instruction, if it is one that works on a cell.
    pub fn operand(&self) -> (r: Option<CommandValue>)
        ensures
            r == self@.operand(),
    {
        match self {
            AnyCommand::Add(command) => Some(command.0),
            AnyCommand::BumpDown(command) => Some(command.0),
            AnyCommand::BumpUp(command) => Some(command.0),
            AnyCommand::CopyFrom(command) => Some(command.0),
            AnyCommand::CopyTo(command) => Some(command.0),
            AnyCommand::Sub(command) => Some(command.0),
            _ => None,
        }
    }
}

impl Command for AnyCommand {
    fn execute(&self, program: &Program, game_state: &mut GameState) -> (r: Result<(), RunError>) {
        match self {
            AnyCommand::Add(command) => command.execute(program, game_state),
            AnyCommand::BumpDown(command) => command.execute(program, game_state),
            AnyCommand::BumpUp(command) => command.execute(program, game_state),
            AnyCommand::CopyFrom(command) => command.execute(program, game_state),
            AnyCommand::CopyTo(command) => command.execute(program, game_state),
            AnyCommand::Inbox(command) => command.execute(program, game_state),
            AnyCommand::Jump(command) => command.execute(program, game_state),
            AnyCommand::JumpNegative(command) => command.execute(program, game_state),
            AnyCommand::JumpZero(command) => command.execute(program, game_state),
            AnyCommand::Outbox(command) => command.execute(program, game_state),
            AnyCommand::Sub(command) => command.execute(program, game_state),
        }
    }

    fn next(&self, program: &Program, game_state: &GameState) -> (r: Result<usize, RunError>) {
        match self {
            AnyCommand::Add(command) => command.next(program, game_state),
            AnyCommand::BumpDown(command) => command.next(program, game_state),
            AnyCommand::BumpUp(command) => command.next(program, game_state),
            AnyCommand::CopyFrom(command) => command.next(program, game_state),
            AnyCommand::CopyTo(command) => command.next(program, game_state),
            AnyCommand::Inbox(command) => command.next(program, game_state),
            AnyCommand::Jump(command) => command.next(program, game_state),
            AnyCommand::JumpNegative(command) => command.next(program, game_state),
            AnyCommand::JumpZero(command) => command.next(program, game_state),
            AnyCommand::Outbox(command) => command.next(program, game_state),
            AnyCommand::Sub(command) => command.next(program, game_state),
        }
    }

    fn requires_index(&self) -> (r: Option<usize>) {
        match self {
            AnyCommand::Add(command) => command.requires_index(),
            AnyCommand::BumpDown(command) => command.requires_index(),
            AnyCommand::BumpUp(command) => command.requires_index(),
            AnyCommand::CopyFrom(command) => command.requires_index(),
            AnyCommand::CopyTo(command) => command.requires_index(),
            AnyCommand::Inbox(command) => command.requires_index(),
            AnyCommand::Jump(command) => command.requires_index(),
            AnyCommand::JumpNegative(command) => command.requires_index(),
            AnyCommand::JumpZero(command) => command.requires_index(),
            AnyCommand::Outbox(command) => command.requires_index(),
            AnyCommand::Sub(command) => command.requires_index(),
        }
    }

    fn requires_label(&self) -> (r: Option<&str>) {
        match self {
            AnyCommand::Add(command) => command.requires_label(),
            AnyCommand::BumpDown(command) => command.requires_label(),
            AnyCommand::BumpUp(command) => command.requires_label(),
            AnyCommand::CopyFrom(command) => command.requires_label(),
            AnyCommand::CopyTo(command) => command.requires_label(),
            AnyCommand::Inbox(command) => command.requires_label(),
            AnyCommand::Jump(command) => command.requires_label(),
            AnyCommand::JumpNegative(command) => command.requires_label(),
            AnyCommand::JumpZero(command) => command.requires_label(),
            AnyCommand::Outbox(command) => command.requires_label(),
            AnyCommand::Sub(command) => command.requires_label(),
        }
    }

    fn factory(&self) -> (r: AnyFactory) {
        match self {
            AnyCommand::Add(command) => command.factory(),
            AnyCommand::BumpDown(command) => command.factory(),
            AnyCommand::BumpUp(command) => command.factory(),
            AnyCommand::CopyFrom(command) => command.factory(),
            AnyCommand::CopyTo(command) => command.factory(),
            AnyCommand::Inbox(command) => command.factory(),
            AnyCommand::Jump(command) => command.factory(),
            AnyCommand::JumpNegative(command) => command.factory(),
            AnyCommand::JumpZero(command) => command.factory(),
            AnyCommand::Outbox(command) => command.factory(),
            AnyCommand::Sub(command) => command.factory(),
        }
    }
}

/// The factory of any kind of instruction.
#[derive(Debug, Clone, Copy, PartialEq, Eq, Structural)]
pub enum AnyFactory {
    Add,
    BumpDown,
    BumpUp,
    CopyFrom,
    CopyTo,
    Inbox,
    Jump,
    JumpNegative,
    JumpZero,
    Outbox,
    Sub,
}

impl CommandFactory for AnyFactory {
    open spec fn keyword(&self) -> Seq<char> {
        match self {
            AnyFactory::Add => AddFactory.keyword(),
            AnyFactory::BumpDown => BumpDownFactory.keyword(),
            AnyFactory::BumpUp => BumpUpFactory.keyword(),
            AnyFactory::CopyFrom => CopyFromFactory.keyword(),
            AnyFactory::CopyTo => CopyToFactory.keyword(),
            AnyFactory::Inbox => InboxFactory.keyword(),
            AnyFactory::Jump => JumpFactory.keyword(),
            AnyFactory::JumpNegative => JumpNegativeFactory.keyword(),
            AnyFactory::JumpZero => JumpZeroFactory.keyword(),
            AnyFactory::Outbox => OutboxFactory.keyword(),
            AnyFactory::Sub => SubFactory.keyword(),
        }
    }

    open spec fn parse(&self, args: Seq<char>) -> Option<Instruction> {
        match self {
            AnyFactory::Add => AddFactory.parse(args),
            AnyFactory::BumpDown => BumpDownFactory.parse(args),
            AnyFactory::BumpUp => BumpUpFactory.parse(args),
            AnyFactory::CopyFrom => CopyFromFactory.parse(args),
            AnyFactory::CopyTo => CopyToFactory.parse(args),
            AnyFactory::Inbox => InboxFactory.parse(args),
            AnyFactory::Jump => JumpFactory.parse(args),
            AnyFactory::JumpNegative => JumpNegativeFactory.parse(args),
            AnyFactory::JumpZero => JumpZeroFactory.parse(args),
            AnyFactory::Outbox => OutboxFactory.parse(args),
            AnyFactory::Sub => SubFactory.parse(args),
        }
    }

    fn command(&self) -> (r: &'static str) {
        match self {
            AnyFactory::Add => AddFactory.command(),
            AnyFactory::BumpDown => BumpDownFactory.command(),
            AnyFactory::BumpUp => BumpUpFactory.command(),
            AnyFactory::CopyFrom => CopyFromFactory.command(),
            AnyFactory::CopyTo => CopyToFactory.command(),
            AnyFactory::Inbox => InboxFactory.command(),
            AnyFactory::Jump => JumpFactory.command(),
            AnyFactory::JumpNegative => JumpNegativeFactory.command(),
            AnyFactory::JumpZero => JumpZeroFactory.command(),
            AnyFactory::Outbox => OutboxFactory.command(),
            AnyFactory::Sub => SubFactory.command(),
        }
    }

    fn create(&self, args: &str) -> (r: Option<AnyCommand>) {
        match self {
            AnyFactory::Add => AddFactory.create(args),
            AnyFactory::BumpDown => BumpDownFactory.create(args),
            AnyFactory::BumpUp => BumpUpFactory.create(args),
            AnyFactory::CopyFrom => CopyFromFactory.create(args),
            AnyFactory::CopyTo => CopyToFactory.create(args),
            AnyFactory::Inbox => InboxFactory.create(args),
            AnyFactory::Jump => JumpFactory.create(args),
            AnyFactory::JumpNegative => JumpNegativeFactory.create(args),
            AnyFactory::JumpZero => JumpZeroFactory.create(args),
            AnyFactory::Outbox => OutboxFactory.create(args),
            AnyFactory::Sub => SubFactory.create(args),
        }
    }
}

/// `s` is the keyword of an instruction.
pub open spec fn is_keyword(s: Seq<char>) -> bool {
    exists|factory: AnyFactory| #[trigger] factory.keyword() == s
}

/// `s` is one of [ALL_COMMANDS].
pub open spec fn is_listed(s: Seq<char>) -> bool {
    exists|i: int| 0 <= i < 11 && (#[trigger] ALL_COMMANDS[i])@ == s
}

/// [ALL_COMMANDS] lists the keyword of every factory, and nothing else.
pub proof fn lemma_all_commands()
    ensures
        forall|s: Seq<char>| is_listed(s) <==> is_keyword(s),
{
    assert(ALL_COMMANDS[0]@ == AnyFactory::Inbox.keyword());
    assert(ALL_COMMANDS[1]@ == AnyFactory::Outbox.keyword());
    assert(ALL_COMMANDS[2]@ == AnyFactory::CopyFrom.keyword());
    assert(ALL_COMMANDS[3]@ == AnyFactory::CopyTo.keyword());
    assert(ALL_COMMANDS[4]@ == AnyFactory::Add.keyword());
    assert(ALL_COMMANDS[5]@ == AnyFactory::Sub.keyword());
    assert(ALL_COMMANDS[6]@ == AnyFactory::BumpUp.keyword());
    assert(ALL_COMMANDS[7]@ == AnyFactory::BumpDown.keyword());
    assert(ALL_COMMANDS[8]@ == AnyFactory::Jump.keyword());
    assert(ALL_COMMANDS[9]@ == AnyFactory::JumpZero.keyword());
    assert(ALL_COMMANDS[10]@ == AnyFactory::JumpNegative.keyword());
    assert forall|s: Seq<char>| is_keyword(s) implies is_listed(s) by {
        let factory = choose|factory: AnyFactory| #[trigger] factory.keyword() == s;
        match factory {
            AnyFactory::Inbox => assert(ALL_COMMANDS[0]@ == s),
            AnyFactory::Outbox => assert(ALL_COMMANDS[1]@ == s),
            AnyFactory::CopyFrom => assert(ALL_COMMANDS[2]@ == s),
            AnyFactory::CopyTo => assert(ALL_COMMANDS[3]@ == s),
            AnyFactory::Add => assert(ALL_COMMANDS[4]@ == s),
            AnyFactory::Sub => assert(ALL_COMMANDS[5]@ == s),
            AnyFactory::BumpUp => assert(ALL_COMMANDS[6]@ == s),
            AnyFactory::BumpDown => assert(ALL_COMMANDS[7]@ == s),
            AnyFactory::Jump => assert(ALL_COMMANDS[8]@ == s),
            AnyFactory::JumpZero => assert(ALL_COMMANDS[9]@ == s),
            AnyFactory::JumpNegative => assert(ALL_COMMANDS[10]@ == s),
        }
    }
}

/// The factory of every kind of instruction, in the order in which a
/// compiler tries them.
pub fn commands() -> (r: Vec<AnyFactory>)
    ensures
        r@ == seq![
            AnyFactory::Add,
            AnyFactory::BumpDown,
            AnyFactory::BumpUp,
            AnyFactory::CopyFrom,
            AnyFactory::CopyTo,
            AnyFactory::Inbox,
            AnyFactory::Jump,
            AnyFactory::JumpNegative,
            AnyFactory::JumpZero,
            AnyFactory::Outbox,
            AnyFactory::Sub,
        ],
        forall|factory: AnyFactory| r@.contains(factory),
{
    let r = vec![
        AnyFactory::Add,
        AnyFactory::BumpDown,
        AnyFactory::BumpUp,
        AnyFactory::CopyFrom,
        AnyFactory::CopyTo,
        AnyFactory::Inbox,
        AnyFactory::Jump,
        AnyFactory::JumpNegative,
        AnyFactory::JumpZero,
        AnyFactory::Outbox,
        AnyFactory::Sub,
    ];
    assert forall|factory: AnyFactory| r@.contains(factory) by {
        match factory {
            AnyFactory::Add => assert(r@[0] == factory),
            AnyFactory::BumpDown => assert(r@[1] == factory),
            AnyFactory::BumpUp => assert(r@[2] == factory),
            AnyFactory::CopyFrom => assert(r@[3] == factory),
            AnyFactory::CopyTo => assert(r@[4] == factory),
            AnyFactory::Inbox => assert(r@[5] == factory),
            AnyFactory::Jump => assert(r@[6] == factory),
            AnyFactory::JumpNegative => assert(r@[7] == factory),
            AnyFactory::JumpZero => assert(r@[8] == factory),
            AnyFactory::Outbox => assert(r@[9] == factory),
            AnyFactory::Sub => assert(r@[10] == factory),
        }
    }
    r
}

} // verus!
