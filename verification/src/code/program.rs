//! Programs, their validation against a problem and their run.

use vstd::prelude::*;

use crate::code::commands::{
    jump_target, AnyCommand, Command, CommandFactory, CommandValue, Instruction,
};
use crate::code::game_state::{GameState, Memory};
use crate::code::semantics::{
    acc_of, cell_of, first_command_violation, first_label_violation, index_of, label_position,
    lemma_label_position, lemma_with_label,
    lemma_execute_frame, lemma_fits, lemma_speeds_fail, max_of, min_of, slot_of, total_of,
    ProgramModel, Violation,
};
use crate::game::problem::{Problem, ProblemIO};
use crate::game::value::Value;

verus! {

/// Why a program got no score.
#[derive(Debug, PartialEq)]
pub enum ProgramError {
    Validation(ValidationError),
    Run(RunError),
}

/// Why a program does not fit a problem.
#[derive(Debug, PartialEq)]
pub enum ValidationError {
    /// The problem does not allow the instruction with this keyword.
    CommandNotAvailable(String),
    /// The operand of an instruction names this cell, directly or as the
    /// place of an index, and the memory lacks it.
    CommandIndex(usize),
    /// An instruction jumps to this label, which the program does not declare.
    MissingLabel(String),
    /// A label stands for this position, which lies behind the program's end.
    LabelIndex(usize),
}

impl View for ValidationError {
    type V = Violation;

    open spec fn view(&self) -> Violation {
        match self {
            ValidationError::CommandNotAvailable(keyword) => Violation::CommandNotAvailable(keyword@),
            ValidationError::CommandIndex(index) => Violation::CommandIndex(*index),
            ValidationError::MissingLabel(label) => Violation::MissingLabel(label@),
            ValidationError::LabelIndex(index) => Violation::LabelIndex(*index),
        }
    }
}

/// Why a run stopped without a result.
#[derive(Debug, Clone, Copy, PartialEq, Eq, Structural)]
pub enum RunError {
    /// An instruction needs a value in hand and there is none.
    EmptyAcc,
    /// An instruction reads a cell that holds nothing.
    EmptyMemory,
    /// The value handed out is not the one expected next (`expected` is
    /// [None] where nothing more is expected), or the run ended before
    /// the value `expected` was handed out (`value` is then [None]).
    IncorrectOutput { expected: Option<Value>, value: Option<Value> },
    /// The cell that should hold an index holds this letter.
    CharIndex(Value),
    /// This number, held in the cell that an indirect operand names, is the
    /// index of no cell of the memory.
    IndexOutOfRange(Value),
    /// A sum of a number and a letter, or of two letters.
    Add,
    /// A difference of a number and a letter.
    Sub,
    /// The operand of an instruction names this cell, directly or as the
    /// place of an index, and the memory lacks it.
    CommandIndex(usize),
    /// A jump to a label that the program does not declare.
    MissingLabel,
    /// A jump to a label that stands for this position, behind the program's end.
    LabelIndex(usize),
    /// The run would take more steps than the step counter can count.
    StepLimit,
}

impl RunError {
    /// The error reports a defect of the program's structure, of the kind
    /// that validation looks for, and not a failure of the computation.
    pub open spec fn is_structural(self) -> bool {
        self is CommandIndex || self is MissingLabel || self is LabelIndex
    }
}

/// What is held in hand.
pub fn try_get_acc(acc: Option<Value>) -> (r: Result<Value, RunError>)
    ensures
        r == acc_of(acc),
{
    match acc {
        Some(acc) => Ok(acc),
        None => Err(RunError::EmptyAcc),
    }
}

/// What a cell holds.
pub fn try_get_from_memory(memory: Option<Value>) -> (r: Result<Value, RunError>)
    ensures
        r == cell_of(memory),
{
    match memory {
        Some(value) => Ok(value),
        None => Err(RunError::EmptyMemory),
    }
}

/// The index that an operand stands for.
pub fn try_get_index(command_value: &CommandValue, memory: &Memory) -> (r: Result<usize, RunError>)
    ensures
        r == index_of(*command_value, memory@),
{
    match command_value {
        CommandValue::Value(value) => Ok(*value),
        CommandValue::Index(index) => {
            if *index >= memory.len() {
                return Err(RunError::CommandIndex(*index));
            }
            let index_value = try_get_from_memory(memory[*index])?;
            match index_value {
                Value::Int(idx) => {
                    if idx < 0 || idx as usize >= memory.len() {
                        Err(RunError::IndexOutOfRange(index_value))
                    } else {
                        Ok(idx as usize)
                    }
                },
                Value::Char(_) => Err(RunError::CharIndex(index_value)),
            }
        },
    }
}

/// The cell that an operand stands for, checked against the size of the memory.
pub fn try_get_slot(command_value: &CommandValue, memory: &Memory) -> (r: Result<usize, RunError>)
    ensures
        r == slot_of(*command_value, memory@),
        r matches Ok(index) ==> index < memory.len(),
{
    let index = try_get_index(command_value, memory)?;
    if index < memory.len() {
        Ok(index)
    } else {
        Err(RunError::CommandIndex(index))
    }
}

/// How a program did on a problem: its size in instructions, and the fewest,
/// the most and the sum of the steps that it took on the problem's tests,
/// with their number. The mean of the steps is `speed_total / runs`.
#[derive(Debug, Clone, Copy, PartialEq, Eq, Structural)]
pub struct Score {
    pub size: usize,
    pub speed_min: u32,
    pub speed_max: u32,
    pub speed_total: u128,
    pub runs: usize,
}

impl Score {
    /// The score of a program of `size` instructions that took these steps.
    pub open spec fn of(size: usize, speeds: Seq<u32>) -> Score {
        Score {
            size,
            speed_min: min_of(speeds),
            speed_max: max_of(speeds),
            speed_total: total_of(speeds) as u128,
            runs: speeds.len() as usize,
        }
    }
}

/// The instructions of a list of commands.
pub open spec fn instructions_of(commands: Seq<AnyCommand>) -> Seq<Instruction> {
    Seq::new(commands.len(), |i: int| commands[i]@)
}

/// A table of labels with each name as a sequence of characters.
pub open spec fn labels_of(labels: Seq<(String, usize)>) -> Seq<(Seq<char>, usize)> {
    Seq::new(labels.len(), |i: int| (labels[i].0@, labels[i].1))
}

/// A list of instructions, and the labels that jumps in it can name.
#[derive(Debug)]
pub struct Program {
    pub commands: Vec<AnyCommand>,
    /// Each label with the position it stands for. A builder, and so the
    /// compiler, enters a name once; of two entries under one name the last
    /// is the one that a jump takes.
    pub labels: Vec<(String, usize)>,
}

impl View for Program {
    type V = ProgramModel;

    open spec fn view(&self) -> ProgramModel {
        ProgramModel { commands: instructions_of(self.commands@), labels: labels_of(self.labels@) }
    }
}

impl Default for Program {
    fn default() -> (r: Self)
        ensures
            r@ == ProgramModel::empty(),
    {
        let r = Program { commands: Vec::new(), labels: Vec::new() };
        assert(r@.commands =~= Seq::empty() && r@.labels =~= Seq::empty());
        r
    }
}

/// Where the entry of `label` stands in a table of labels.
fn find_position(labels: &Vec<(String, usize)>, label: &str) -> (r: Option<usize>)
    ensures
        match r {
            Some(i) => label_position(labels_of(labels@), label@) == Some(i as int) && i
                < labels.len(),
            None => label_position(labels_of(labels@), label@) is None,
        },
{
    let ghost table = labels_of(labels@);
    let mut i: usize = labels.len();
    assert(table.take(i as int) == table);
    while i > 0
        invariant
            i <= labels.len(),
            table == labels_of(labels@),
            label_position(table, label@) == label_position(table.take(i as int), label@),
        decreases i,
    {
        i -= 1;
        assert(table.take(i + 1).drop_last() == table.take(i as int));
        if labels[i].0.as_str().eq(label) {
            return Some(i);
        }
    }
    None
}

impl Program {
    /// Get Label
    ///
    /// Get label's index, or [None] if the program has no such label.
    pub fn get_label(&self, label: &str) -> (r: Option<usize>)
        ensures
            r == self@.label(label@),
    {
        proof {
            lemma_label_position(self@.labels, label@);
        }
        match find_position(&self.labels, label) {
            Some(i) => Some(self.labels[i].1),
            None => None,
        }
    }
}

impl Program {
    /// Checks the program against a problem: every instruction in order, for
    /// its keyword, the cell that its operand names and the label it needs,
    /// then every label. The first violation found is the error.
    pub fn validate_new(&self, problem: &Problem) -> (r: Result<(), ValidationError>)
        ensures
            r is Ok <==> self@.fits(problem@),
            match self@.violation(problem@) {
                None => r is Ok,
                Some(violation) => r matches Err(error) && error@ == violation,
            },
    {
        proof {
            lemma_fits(self@, problem@);
        }
        let ghost commands = self@.commands;
        let ghost labels = self@.labels;
        let mut i: usize = 0;
        assert(commands.skip(0) == commands);
        while i < self.commands.len()
            invariant
                i <= self.commands.len(),
                commands == self@.commands,
                first_command_violation(commands, self@, problem@) == first_command_violation(
                    commands.skip(i as int),
                    self@,
                    problem@,
                ),
            decreases self.commands.len() - i,
        {
            let command = &self.commands[i];
            assert(commands.skip(i as int).drop_first() == commands.skip(i + 1));
            let command_type = command.factory().command();
            if !problem.is_command_available(command_type) {
                return Err(ValidationError::CommandNotAvailable(command_type.to_owned()));
            }
            if let Some(operand) = command.operand() {
                let idx = match operand {
                    CommandValue::Value(value) => value,
                    CommandValue::Index(index) => index,
                };
                if idx >= problem.get_memory().len() {
                    return Err(ValidationError::CommandIndex(idx));
                }
            }
            if let Some(label) = command.requires_label() {
                if self.get_label(label).is_none() {
                    return Err(ValidationError::MissingLabel(label.to_owned()));
                }
            }
            i += 1;
        }
        let mut j: usize = 0;
        assert(labels.skip(0) == labels);
        while j < self.labels.len()
            invariant
                j <= self.labels.len(),
                labels == self@.labels,
                first_command_violation(self@.commands, self@, problem@) is None,
                first_label_violation(labels, self.commands.len() as nat) == first_label_violation(
                    labels.skip(j as int),
                    self.commands.len() as nat,
                ),
            decreases self.labels.len() - j,
        {
            let idx = self.labels[j].1;
            assert(labels.skip(j as int).drop_first() == labels.skip(j + 1));
            if idx > self.commands.len() {
                return Err(ValidationError::LabelIndex(idx));
            }
            j += 1;
        }
        Ok(())
    }

    /// Checks the program against a problem, as [Program::validate_new]
    /// does, and reports a violation as a [ProgramError].
    pub fn validate(&self, problem: &Problem) -> (r: Result<(), ProgramError>)
        ensures
            r is Ok <==> self@.fits(problem@),
            match self@.violation(problem@) {
                None => r is Ok,
                Some(violation) => r matches Err(ProgramError::Validation(error)) && error@
                    == violation,
            },
    {
        match self.validate_new(problem) {
            Ok(()) => Ok(()),
            Err(error) => Err(ProgramError::Validation(error)),
        }
    }

    /// Run code
    ///
    /// Run [Program] for given [Problem]: on each of its tests in order, each
    /// from a fresh copy of the problem's memory. The first error ends the run.
    ///
    /// A program that was not validated may stop with one of the errors that
    /// [RunError::is_structural] tells of; a validated program never does.
    pub fn run(&self, problem: &Problem) -> (r: Result<Score, RunError>)
        ensures
            r == self@.run(problem@),
    {
        let ios = problem.get_ios();
        let ghost tests = problem@.ios;
        let ghost mut seen: Seq<u32> = Seq::empty();
        let mut speed_min: u32 = u32::MAX;
        let mut speed_max: u32 = 0;
        let mut speed_total: u128 = 0;
        let mut i: usize = 0;
        while i < ios.len()
            invariant
                i <= ios.len(),
                ios == problem.ios,
                tests == problem@.ios,
                self@.speeds(tests.take(i as int), problem@.memory) == Ok::<Seq<u32>, RunError>(seen),
                seen.len() == i,
                speed_min == min_of(seen),
                speed_max == max_of(seen),
                speed_total == total_of(seen),
                speed_total <= i * u32::MAX,
            decreases ios.len() - i,
        {
            let memory = copy_memory(problem.get_memory());
            proof {
                assert(tests.take(i + 1).drop_last() == tests.take(i as int));
            }
            let speed = match self.run_io_new(&ios[i], memory) {
                Ok(speed) => speed,
                Err(error) => {
                    proof {
                        lemma_speeds_fail(self@, tests, problem@.memory, i + 1);
                    }
                    return Err(error);
                },
            };
            proof {
                assert(seen.push(speed).drop_last() == seen);
                seen = seen.push(speed);
                assert((i + 1) * u32::MAX == i * u32::MAX + u32::MAX) by (nonlinear_arith);
                assert(i * u32::MAX <= usize::MAX * u32::MAX) by (nonlinear_arith)
                    requires
                        i <= usize::MAX,
                ;
            }
            if speed > speed_max {
                speed_max = speed;
            }
            if speed < speed_min {
                speed_min = speed;
            }
            speed_total += speed as u128;
            i += 1;
        }
        assert(tests.take(i as int) == tests);
        Ok(Score { size: self.commands.len(), speed_min, speed_max, speed_total, runs: ios.len() })
    }

    /// Runs the program on one test, from the memory given, and returns the
    /// number of steps taken.
    pub fn run_io_new(&self, problem_io: &ProblemIO, memory: Memory) -> (r: Result<u32, RunError>)
        ensures
            r == self@.run_io(problem_io@, memory@),
    {
        self.run_state(GameState::new(&problem_io.input, &problem_io.output, memory))
    }

    /// Goes on with the program from the machine as it stands, and returns
    /// the number of steps that the machine has counted when the run ends.
    ///
    /// A run does not go on for ever: the step counter holds no more than
    /// `u32::MAX`, and a run that would count one step more ends with
    /// [RunError::StepLimit].
    pub fn run_state(&self, game_state: GameState) -> (r: Result<u32, RunError>)
        ensures
            r == self@.run_from(game_state@),
    {
        let mut state = game_state;

        while state.i_command < self.commands.len()
            invariant
                self@.run_from(game_state@) == self@.run_from(state@),
            decreases u32::MAX - state.speed,
        {
            if state.speed == u32::MAX {
                return Err(RunError::StepLimit);
            }
            let ghost before = state@;
            let command = &self.commands[state.i_command];
            proof {
                lemma_execute_frame(command@, before);
            }
            command.execute(self, &mut state)?;
            state.i_command = command.next(self, &state)?;
            state.speed += 1;
        }

        if state.i_output >= state.output.len() {
            let speed_delta: u32 = if state.i_command == self.commands.len()
                || state.speed == 0 {
                0  // No more commands to be executed
            } else {
                1  // Ended on Inbox - remove from count
            };

            Ok(state.speed - speed_delta)
        } else {
            Err(
                RunError::IncorrectOutput {
                    expected: Some(state.output[state.i_output]),
                    value: None,
                },
            )
        }
    }
}

/// A copy of a memory.
pub fn copy_memory(memory: &Memory) -> (copy: Memory)
    ensures
        copy@ == memory@,
{
    let mut copy: Memory = Vec::new();
    let mut i: usize = 0;
    while i < memory.len()
        invariant
            i <= memory.len(),
            copy@ == memory@.take(i as int),
        decreases memory.len() - i,
    {
        copy.push(memory[i]);
        i += 1;
    }
    copy
}

/// The position at which a jump to `label` goes on.
pub fn try_get_label(program: &Program, label: &str) -> (r: Result<usize, RunError>)
    ensures
        r == jump_target(program@, label@),
{
    match program.get_label(label) {
        None => Err(RunError::MissingLabel),
        Some(target) => if target <= program.commands.len() {
            Ok(target)
        } else {
            Err(RunError::LabelIndex(target))
        },
    }
}

/// Puts a program together, instruction by instruction and label by label.
pub struct ProgramBuilder {
    commands: Vec<AnyCommand>,
    labels: Vec<(String, usize)>,
}

impl View for ProgramBuilder {
    type V = ProgramModel;

    closed spec fn view(&self) -> ProgramModel {
        ProgramModel { commands: instructions_of(self.commands@), labels: labels_of(self.labels@) }
    }
}

impl ProgramBuilder {
    /// A builder of a program without instructions and labels.
    pub fn new() -> (r: Self)
        ensures
            r@ == ProgramModel::empty(),
            r@.tidy(),
    {
        let r = Self { commands: Vec::new(), labels: Vec::new() };
        assert(r@.commands =~= Seq::empty() && r@.labels =~= Seq::empty());
        r
    }

    /// Adds an instruction at the end of the program.
    pub fn add_command_ref(&mut self, command: AnyCommand)
        ensures
            final(self)@ == old(self)@.with_command(command@),
            old(self)@.tidy() ==> final(self)@.tidy(),
    {
        self.commands.push(command);
        assert(instructions_of(self.commands@) == instructions_of(old(self).commands@).push(
            command@,
        ));
    }

    /// Adds an instruction at the end of the program.
    pub fn add_command(self, command: AnyCommand) -> (r: Self)
        ensures
            r@ == self@.with_command(command@),
            self@.tidy() ==> r@.tidy(),
    {
        let mut builder = self;
        builder.add_command_ref(command);
        builder
    }

    /// Adds an instruction at the end of the program, as
    /// [ProgramBuilder::add_command_ref] does.
    pub fn add_command_ref_new(&mut self, command: AnyCommand)
        ensures
            final(self)@ == old(self)@.with_command(command@),
            old(self)@.tidy() ==> final(self)@.tidy(),
    {
        self.add_command_ref(command);
    }

    /// Adds an instruction at the end of the program, as
    /// [ProgramBuilder::add_command] does.
    pub fn add_command_new(self, command: AnyCommand) -> (r: Self)
        ensures
            r@ == self@.with_command(command@),
            self@.tidy() ==> r@.tidy(),
    {
        self.add_command(command)
    }

    /// Declares a label at the end of the program: it stands for the position of
    /// the instruction that is added next.
    pub fn add_label_ref(&mut self, label: String)
        ensures
            final(self)@ == old(self)@.with_label(label@),
            old(self)@.tidy() ==> final(self)@.tidy(),
    {
        proof {
            lemma_with_label(self@, label@);
        }
        let target = self.commands.len();
        match find_position(&self.labels, label.as_str()) {
            Some(i) => {
                self.labels.set(i, (label, target));
                assert(labels_of(self.labels@) == labels_of(old(self).labels@).update(
                    i as int,
                    (label@, target),
                ));
            },
            None => {
                self.labels.push((label, target));
                assert(labels_of(self.labels@) == labels_of(old(self).labels@).push(
                    (label@, target),
                ));
            },
        }
    }

    /// Declares a label at the end of the program: it stands for the position of
    /// the instruction that is added next.
    pub fn add_label(self, label: String) -> (r: Self)
        ensures
            r@ == self@.with_label(label@),
            self@.tidy() ==> r@.tidy(),
    {
        let mut builder = self;
        builder.add_label_ref(label);
        builder
    }

    /// The program put together so far.
    pub fn build(self) -> (r: Program)
        ensures
            r@ == self@,
    {
        Program { commands: self.commands, labels: self.labels }
    }
}

} // verus!
