//! What a program means: which cell an operand stands for, when a program
//! fits a problem, and what a run gives. All of it is ghost code.

use vstd::prelude::*;

use crate::code::commands::{CommandValue, Instruction};
use crate::code::game_state::Machine;
use crate::code::program::{RunError, Score};
use crate::game::problem::{IoModel, ProblemModel};
use crate::game::value::Value;

verus! {

/// A [ValidationError] as a mathematical value.
pub enum Violation {
    CommandNotAvailable(Seq<char>),
    CommandIndex(usize),
    MissingLabel(Seq<char>),
    LabelIndex(usize),
}

/// What is held in hand, or the error for an empty hand.
pub open spec fn acc_of(acc: Option<Value>) -> Result<Value, RunError> {
    match acc {
        Some(value) => Ok(value),
        None => Err(RunError::EmptyAcc),
    }
}

/// What a cell holds, or the error for an empty cell.
pub open spec fn cell_of(cell: Option<Value>) -> Result<Value, RunError> {
    match cell {
        Some(value) => Ok(value),
        None => Err(RunError::EmptyMemory),
    }
}

/// The index that an operand stands for. A direct operand stands for its own
/// number. An indirect operand stands for the number held in the cell it
/// names, which has to be the index of a cell.
pub open spec fn index_of(command_value: CommandValue, memory: Seq<Option<Value>>) -> Result<
    usize,
    RunError,
> {
    match command_value {
        CommandValue::Value(value) => Ok(value),
        CommandValue::Index(index) => if index >= memory.len() {
            Err(RunError::CommandIndex(index))
        } else {
            match memory[index as int] {
                None => Err(RunError::EmptyMemory),
                Some(Value::Char(c)) => Err(RunError::CharIndex(Value::Char(c))),
                Some(Value::Int(i)) => if i < 0 || i >= memory.len() {
                    Err(RunError::IndexOutOfRange(Value::Int(i)))
                } else {
                    Ok(i as usize)
                },
            }
        },
    }
}

/// The cell that an operand stands for: the index of [index_of], which has
/// to name a cell of the memory. An indirect operand that stands for an index
/// always does; a direct operand that does not is reported with its number.
pub open spec fn slot_of(command_value: CommandValue, memory: Seq<Option<Value>>) -> Result<
    usize,
    RunError,
> {
    match index_of(command_value, memory) {
        Ok(index) => if index < memory.len() {
            Ok(index)
        } else {
            Err(RunError::CommandIndex(index))
        },
        Err(error) => Err(error),
    }
}

/// A direct operand stands for its own number, whatever the memory holds.
/// An indirect operand stands for the number in the cell it names, where
/// that cell holds the index of a cell; it stands for nothing where the cell
/// is empty or holds a letter.
pub proof fn lemma_addressing_round_trip(index: usize, memory: Seq<Option<Value>>)
    ensures
        index_of(CommandValue::Value(index), memory) == Ok::<usize, RunError>(index),
        index_of(CommandValue::Index(index), memory) matches Ok(target) ==> index < memory.len()
            && target < memory.len() && memory[index as int] == Some(Value::Int(target as i32)),
        index < memory.len() ==> match memory[index as int] {
            Some(Value::Int(i)) => if 0 <= i < memory.len() {
                index_of(CommandValue::Index(index), memory) == Ok::<usize, RunError>(i as usize)
            } else {
                index_of(CommandValue::Index(index), memory) == Err::<usize, RunError>(
                    RunError::IndexOutOfRange(Value::Int(i)),
                )
            },
            Some(Value::Char(c)) => index_of(CommandValue::Index(index), memory) == Err::<usize, RunError>(
                RunError::CharIndex(Value::Char(c)),
            ),
            None => index_of(CommandValue::Index(index), memory) == Err::<usize, RunError>(
                RunError::EmptyMemory,
            ),
        },
{
}

/// The position that the name stands for in a table of labels: that of the
/// entry made last under this name.
pub open spec fn find_label(labels: Seq<(Seq<char>, usize)>, name: Seq<char>) -> Option<usize>
    decreases labels.len(),
{
    if labels.len() == 0 {
        None
    } else if labels.last().0 == name {
        Some(labels.last().1)
    } else {
        find_label(labels.drop_last(), name)
    }
}

/// Where the entry of a name stands in a table of labels: the place of the
/// last entry under this name.
pub open spec fn label_position(labels: Seq<(Seq<char>, usize)>, name: Seq<char>) -> Option<int>
    decreases labels.len(),
{
    if labels.len() == 0 {
        None
    } else if labels.last().0 == name {
        Some(labels.len() - 1)
    } else {
        label_position(labels.drop_last(), name)
    }
}

/// No name occurs twice in the table of labels.
pub open spec fn names_once(labels: Seq<(Seq<char>, usize)>) -> bool {
    forall|i: int, j: int|
        0 <= i < j < labels.len() ==> (#[trigger] labels[i]).0 != (#[trigger] labels[j]).0
}

/// A program as a mathematical value: its instructions in order, and its
/// labels, each with the position it stands for, in the order in which they
/// were first declared.
pub struct ProgramModel {
    pub commands: Seq<Instruction>,
    pub labels: Seq<(Seq<char>, usize)>,
}

impl ProgramModel {
    /// The program without instructions and labels.
    pub open spec fn empty() -> ProgramModel {
        ProgramModel { commands: Seq::empty(), labels: Seq::empty() }
    }

    /// The position that a label stands for.
    pub open spec fn label(self, name: Seq<char>) -> Option<usize> {
        find_label(self.labels, name)
    }

    /// The program fits the problem: the problem allows the keyword of every
    /// instruction, its memory has the cell that the operand of any
    /// instruction names, be the operand direct or indirect, every label that
    /// an instruction jumps to is declared, and no label stands for a
    /// position behind the end of the program.
    pub open spec fn fits(self, problem: ProblemModel) -> bool {
        &&& forall|i: int|
            0 <= i < self.commands.len() ==> {
                let command = #[trigger] self.commands[i];
                &&& problem.available_commands.contains(command.keyword())
                &&& command.operand() matches Some(operand) ==> operand.number()
                    < problem.memory.len()
                &&& command.requires_label() matches Some(label) ==> self.label(label) is Some
            }
        &&& forall|j: int|
            0 <= j < self.labels.len() ==> (#[trigger] self.labels[j]).1 <= self.commands.len()
    }

    /// The first thing that keeps the program from fitting a problem, if
    /// anything does: of its instructions in order, then of its labels in
    /// the order in which they were declared.
    pub open spec fn violation(self, problem: ProblemModel) -> Option<Violation> {
        match first_command_violation(self.commands, self, problem) {
            Some(violation) => Some(violation),
            None => first_label_violation(self.labels, self.commands.len()),
        }
    }

    /// The result of a run that has come to its end, for the machine as the
    /// run left it. Whatever the output tape still expects is missing. A run
    /// that ended at the end of the program took as many steps as were
    /// counted; a run that ended anywhere else ended on the instruction that
    /// reached for input in vain, which is not counted (where a step was
    /// counted at all).
    pub open spec fn finish(self, s: Machine) -> Result<u32, RunError> {
        if s.i_output >= s.output.len() {
            if s.i_command == self.commands.len() || s.speed == 0 {
                Ok(s.speed)
            } else {
                Ok((s.speed - 1) as u32)
            }
        } else {
            Err(RunError::IncorrectOutput { expected: Some(s.output[s.i_output as int]), value: None })
        }
    }

    /// The result of a run that goes on from the machine `s`: the number of
    /// steps counted when it ends, or the error that stops it. While the
    /// machine stands at an instruction, that instruction is executed, the
    /// machine moves to the position it names next, and one step is counted.
    pub open spec fn run_from(self, s: Machine) -> Result<u32, RunError>
        decreases u32::MAX - s.speed,
    {
        if s.i_command < self.commands.len() {
            if s.speed == u32::MAX {
                Err(RunError::StepLimit)
            } else {
                let command = self.commands[s.i_command as int];
                match command.execute(s) {
                    Err(error) => Err(error),
                    Ok(after) => match command.next(self, after) {
                        Err(error) => Err(error),
                        Ok(next) => self.run_from(
                            Machine { i_command: next, speed: (s.speed + 1) as u32, ..after },
                        ),
                    },
                }
            }
        } else {
            self.finish(s)
        }
    }

    /// The result of a run on one test, from a memory as given.
    pub open spec fn run_io(self, io: IoModel, memory: Seq<Option<Value>>) -> Result<u32, RunError> {
        self.run_from(Machine::start(io.input, io.output, memory))
    }

    /// The steps taken on each of some tests in order, every test from a
    /// memory as given, or the error of the first test that fails.
    pub open spec fn speeds(self, ios: Seq<IoModel>, memory: Seq<Option<Value>>) -> Result<
        Seq<u32>,
        RunError,
    >
        decreases ios.len(),
    {
        if ios.len() == 0 {
            Ok(Seq::empty())
        } else {
            match self.speeds(ios.drop_last(), memory) {
                Err(error) => Err(error),
                Ok(speeds) => match self.run_io(ios.last(), memory) {
                    Err(error) => Err(error),
                    Ok(speed) => Ok(speeds.push(speed)),
                },
            }
        }
    }

    /// The score of the program on a problem, or the error of the first test
    /// that fails.
    pub open spec fn run(self, problem: ProblemModel) -> Result<Score, RunError> {
        match self.speeds(problem.ios, problem.memory) {
            Err(error) => Err(error),
            Ok(speeds) => Ok(Score::of(self.commands.len() as usize, speeds)),
        }
    }

    /// The program with one more instruction at its end.
    pub open spec fn with_command(self, command: Instruction) -> ProgramModel {
        ProgramModel { commands: self.commands.push(command), ..self }
    }

    /// No label stands for a position behind the end of the program.
    pub open spec fn labels_within(self) -> bool {
        forall|i: int|
            0 <= i < self.labels.len() ==> (#[trigger] self.labels[i]).1 <= self.commands.len()
    }

    /// The table of labels is as a builder keeps it: no name occurs twice,
    /// and no label stands for a position behind the end of the program.
    pub open spec fn tidy(self) -> bool {
        names_once(self.labels) && self.labels_within()
    }

    /// The program with a label declared at its end: the label stands for the
    /// position of the instruction that comes next. A name that was declared
    /// before keeps its place in the table and stands for the new position
    /// from now on; a new name is entered at the end of the table.
    pub open spec fn with_label(self, name: Seq<char>) -> ProgramModel {
        let entry = (name, self.commands.len() as usize);
        ProgramModel {
            labels: match label_position(self.labels, name) {
                Some(i) => self.labels.update(i, entry),
                None => self.labels.push(entry),
            },
            ..self
        }
    }
}

/// What keeps one instruction of a program from fitting a problem: its
/// keyword is not allowed, or the cell that its operand names, directly or
/// as the place of an index, is missing from the memory, or the label it
/// needs is missing from the program, looked for in this order.
pub open spec fn command_violation(
    command: Instruction,
    program: ProgramModel,
    problem: ProblemModel,
) -> Option<Violation> {
    if !problem.available_commands.contains(command.keyword()) {
        Some(Violation::CommandNotAvailable(command.keyword()))
    } else if command.operand() is Some && command.operand()->0.number() >= problem.memory.len() {
        Some(Violation::CommandIndex(command.operand()->0.number()))
    } else if command.requires_label() is Some && program.label(command.requires_label()->0)
        is None {
        Some(Violation::MissingLabel(command.requires_label()->0))
    } else {
        None
    }
}

/// The violation of the first instruction in `commands` that has one.
pub open spec fn first_command_violation(
    commands: Seq<Instruction>,
    program: ProgramModel,
    problem: ProblemModel,
) -> Option<Violation>
    decreases commands.len(),
{
    if commands.len() == 0 {
        None
    } else {
        match command_violation(commands[0], program, problem) {
            Some(violation) => Some(violation),
            None => first_command_violation(commands.drop_first(), program, problem),
        }
    }
}

/// The violation of the first label in `labels` that stands for a position
/// behind the end of a program of `size` instructions.
pub open spec fn first_label_violation(labels: Seq<(Seq<char>, usize)>, size: nat) -> Option<
    Violation,
>
    decreases labels.len(),
{
    if labels.len() == 0 {
        None
    } else if labels[0].1 > size {
        Some(Violation::LabelIndex(labels[0].1))
    } else {
        first_label_violation(labels.drop_first(), size)
    }
}

/// The smallest of some step counts; the largest count there is if there are none.
pub open spec fn min_of(speeds: Seq<u32>) -> u32
    decreases speeds.len(),
{
    if speeds.len() == 0 {
        u32::MAX
    } else if speeds.last() < min_of(speeds.drop_last()) {
        speeds.last()
    } else {
        min_of(speeds.drop_last())
    }
}

/// The largest of some step counts; zero if there are none.
pub open spec fn max_of(speeds: Seq<u32>) -> u32
    decreases speeds.len(),
{
    if speeds.len() == 0 {
        0
    } else if speeds.last() > max_of(speeds.drop_last()) {
        speeds.last()
    } else {
        max_of(speeds.drop_last())
    }
}

/// The sum of some step counts.
pub open spec fn total_of(speeds: Seq<u32>) -> nat
    decreases speeds.len(),
{
    if speeds.len() == 0 {
        0
    } else {
        total_of(speeds.drop_last()) + speeds.last() as nat
    }
}

/// Where a list of instructions is without violation, so is each of them.
pub proof fn lemma_commands_fit(
    commands: Seq<Instruction>,
    program: ProgramModel,
    problem: ProblemModel,
    i: int,
)
    requires
        first_command_violation(commands, program, problem) is None,
        0 <= i < commands.len(),
    ensures
        command_violation(commands[i], program, problem) is None,
    decreases commands.len(),
{
    if i > 0 {
        lemma_commands_fit(commands.drop_first(), program, problem, i - 1);
    }
}

/// Where each instruction of a list is without violation, so is the list.
pub proof fn lemma_commands_fit_together(
    commands: Seq<Instruction>,
    program: ProgramModel,
    problem: ProblemModel,
)
    requires
        forall|i: int|
            0 <= i < commands.len() ==> command_violation(#[trigger] commands[i], program, problem)
                is None,
    ensures
        first_command_violation(commands, program, problem) is None,
    decreases commands.len(),
{
    if commands.len() > 0 {
        lemma_commands_fit_together(commands.drop_first(), program, problem);
    }
}

/// Where a table of labels is without violation, no label in it stands for a
/// position behind the end of the program.
pub proof fn lemma_labels_fit(labels: Seq<(Seq<char>, usize)>, size: nat, i: int)
    requires
        first_label_violation(labels, size) is None,
        0 <= i < labels.len(),
    ensures
        labels[i].1 <= size,
    decreases labels.len(),
{
    if i > 0 {
        lemma_labels_fit(labels.drop_first(), size, i - 1);
    }
}

/// Where no label of a table stands for a position behind the end of the
/// program, the table is without violation.
pub proof fn lemma_labels_fit_together(labels: Seq<(Seq<char>, usize)>, size: nat)
    requires
        forall|i: int| 0 <= i < labels.len() ==> (#[trigger] labels[i]).1 <= size,
    ensures
        first_label_violation(labels, size) is None,
    decreases labels.len(),
{
    if labels.len() > 0 {
        lemma_labels_fit_together(labels.drop_first(), size);
    }
}

/// A program is without violation exactly when it fits the problem.
pub proof fn lemma_fits(program: ProgramModel, problem: ProblemModel)
    ensures
        program.violation(problem) is None <==> program.fits(problem),
{
    if program.violation(problem) is None {
        assert forall|i: int| 0 <= i < program.commands.len() implies command_violation(
            #[trigger] program.commands[i],
            program,
            problem,
        ) is None by {
            lemma_commands_fit(program.commands, program, problem, i);
        }
        assert forall|j: int| 0 <= j < program.labels.len() implies (
        #[trigger] program.labels[j]).1 <= program.commands.len() by {
            lemma_labels_fit(program.labels, program.commands.len(), j);
        }
    }
    if program.fits(problem) {
        assert forall|i: int| 0 <= i < program.commands.len() implies command_violation(
            #[trigger] program.commands[i],
            program,
            problem,
        ) is None by {
            let command = program.commands[i];
        }
        lemma_commands_fit_together(program.commands, program, problem);
        lemma_labels_fit_together(program.labels, program.commands.len());
    }
}

/// An instruction leaves the tapes, the size of the memory, the position in
/// the program and the count of steps as they are.
pub proof fn lemma_execute_frame(command: Instruction, s: Machine)
    ensures
        command.execute(s) matches Ok(after) ==> {
            &&& after.input == s.input
            &&& after.output == s.output
            &&& after.memory.len() == s.memory.len()
            &&& after.i_command == s.i_command
            &&& after.speed == s.speed
        },
{
}

/// Where one of the first `k` tests fails, so do all the tests together, and
/// with the same error.
pub proof fn lemma_speeds_fail(
    program: ProgramModel,
    ios: Seq<IoModel>,
    memory: Seq<Option<Value>>,
    k: int,
)
    requires
        0 <= k <= ios.len(),
        program.speeds(ios.take(k), memory) is Err,
    ensures
        program.speeds(ios, memory) == program.speeds(ios.take(k), memory),
    decreases ios.len(),
{
    if k == ios.len() {
        assert(ios.take(k) == ios);
    } else {
        assert(ios.drop_last().take(k) == ios.take(k));
        lemma_speeds_fail(program, ios.drop_last(), memory, k);
    }
}

/// The entry that [label_position] finds is an entry of the table under the
/// name, and no entry behind it is; where it finds none, there is none.
pub proof fn lemma_label_position(labels: Seq<(Seq<char>, usize)>, name: Seq<char>)
    ensures
        match label_position(labels, name) {
            Some(i) => {
                &&& 0 <= i < labels.len()
                &&& labels[i].0 == name
                &&& find_label(labels, name) == Some(labels[i].1)
                &&& forall|j: int| i < j < labels.len() ==> (#[trigger] labels[j]).0 != name
            },
            None => {
                &&& find_label(labels, name) is None
                &&& forall|j: int| 0 <= j < labels.len() ==> (#[trigger] labels[j]).0 != name
            },
        },
    decreases labels.len(),
{
    if labels.len() > 0 && labels.last().0 != name {
        lemma_label_position(labels.drop_last(), name);
        assert forall|j: int| 0 <= j < labels.len() - 1 implies labels.drop_last()[j]
            == #[trigger] labels[j] by {}
    }
}

/// Two tables that hold the same names in the same places have the entry of
/// a name in the same place.
pub proof fn lemma_same_names(
    labels: Seq<(Seq<char>, usize)>,
    others: Seq<(Seq<char>, usize)>,
    name: Seq<char>,
)
    requires
        labels.len() == others.len(),
        forall|i: int| 0 <= i < labels.len() ==> (#[trigger] labels[i]).0 == others[i].0,
    ensures
        label_position(labels, name) == label_position(others, name),
    decreases labels.len(),
{
    if labels.len() > 0 {
        assert(labels.last().0 == others.last().0);
        assert forall|i: int| 0 <= i < labels.len() - 1 implies (#[trigger] labels.drop_last()[i]).0
            == others.drop_last()[i].0 by {
            assert(labels.drop_last()[i] == labels[i]);
            assert(others.drop_last()[i] == others[i]);
        }
        lemma_same_names(labels.drop_last(), others.drop_last(), name);
    }
}

/// A label that was declared stands for the position of the instruction that
/// comes next, every other label stands for what it stood for, no name comes
/// to occur twice, and no label comes to stand behind the end of the program.
pub proof fn lemma_with_label(program: ProgramModel, name: Seq<char>)
    ensures
        program.with_label(name).commands == program.commands,
        program.with_label(name).label(name) == Some(program.commands.len() as usize),
        forall|other: Seq<char>|
            other != name ==> #[trigger] program.with_label(name).label(other) == program.label(
                other,
            ),
        names_once(program.labels) ==> names_once(program.with_label(name).labels),
        program.labels_within() ==> program.with_label(name).labels_within(),
{
    let labels = program.labels;
    let after = program.with_label(name).labels;
    let entry = (name, program.commands.len() as usize);
    lemma_label_position(labels, name);
    match label_position(labels, name) {
        Some(i) => {
            assert(after == labels.update(i, entry));
            lemma_same_names(labels, after, name);
            lemma_label_position(after, name);
            assert forall|other: Seq<char>| other != name implies #[trigger] find_label(
                after,
                other,
            ) == find_label(labels, other) by {
                lemma_same_names(labels, after, other);
                lemma_label_position(labels, other);
                lemma_label_position(after, other);
            }
            assert(names_once(labels) ==> names_once(after)) by {
                assert forall|a: int, b: int| 0 <= a < b < after.len() implies (
                #[trigger] after[a]).0 == labels[a].0 && (#[trigger] after[b]).0 == labels[b].0 by {}
            }
        },
        None => {
            assert(after == labels.push(entry));
            assert(after.drop_last() == labels);
            assert forall|other: Seq<char>| other != name implies #[trigger] find_label(
                after,
                other,
            ) == find_label(labels, other) by {}
            assert(names_once(labels) ==> names_once(after)) by {
                assert forall|a: int, b: int|
                    names_once(labels) && 0 <= a < b < after.len() implies (#[trigger] after[a]).0 != (
                    #[trigger] after[b]).0 by {
                    if b < labels.len() {
                        assert(after[a] == labels[a] && after[b] == labels[b]);
                    } else {
                        assert(after[a] == labels[a]);
                    }
                }
            }
        },
    }
    assert(program.labels_within() ==> program.with_label(name).labels_within()) by {
        if program.labels_within() {
            assert forall|i: int| 0 <= i < after.len() implies (#[trigger] after[i]).1
                <= program.commands.len() by {
                if i < labels.len() && after[i] != entry {
                    assert(after[i] == labels[i]);
                }
            }
        }
    }
}

} // verus!
