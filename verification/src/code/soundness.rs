//! What validation promises of a run, and that a run is a function of the
//! program and the problem.

use vstd::prelude::*;

use crate::code::game_state::Machine;
use crate::code::program::Program;
use crate::code::semantics::{
    find_label, lemma_commands_fit, lemma_execute_frame, lemma_fits, lemma_labels_fit, ProgramModel,
};
use crate::game::problem::{IoModel, Problem, ProblemModel};
use crate::game::value::Value;

verus! {

/// The position that a name stands for is the position of an entry of the table.
pub proof fn lemma_found_label(labels: Seq<(Seq<char>, usize)>, name: Seq<char>) -> (i: int)
    requires
        find_label(labels, name) is Some,
    ensures
        0 <= i < labels.len(),
        labels[i].1 == find_label(labels, name)->0,
    decreases labels.len(),
{
    if labels.last().0 == name {
        labels.len() - 1
    } else {
        lemma_found_label(labels.drop_last(), name)
    }
}

/// A program that passed validation against a problem, run from any machine
/// with a memory of the problem's size, does not stop for a defect of its
/// structure: no instruction misses the cell that its operand names, and no
/// jump misses its label or leads behind the program's end.
pub proof fn lemma_validated_run_from(program: ProgramModel, problem: ProblemModel, s: Machine)
    requires
        program.fits(problem),
        s.memory.len() == problem.memory.len(),
    ensures
        program.run_from(s) matches Err(error) ==> !error.is_structural(),
    decreases u32::MAX - s.speed,
{
    lemma_fits(program, problem);
    if s.i_command < program.commands.len() && s.speed < u32::MAX {
        let command = program.commands[s.i_command as int];
        lemma_commands_fit(program.commands, program, problem, s.i_command as int);
        lemma_execute_frame(command, s);
        if let Ok(after) = command.execute(s) {
            if let Some(label) = command.requires_label() {
                let i = lemma_found_label(program.labels, label);
                lemma_labels_fit(program.labels, program.commands.len(), i);
            }
            if let Ok(next) = command.next(program, after) {
                lemma_validated_run_from(
                    program,
                    problem,
                    Machine { i_command: next, speed: (s.speed + 1) as u32, ..after },
                );
            }
        }
    }
}

/// Where the tests of a list fail together, the error is that of one of them.
pub proof fn lemma_failed_test(
    program: ProgramModel,
    ios: Seq<IoModel>,
    memory: Seq<Option<Value>>,
) -> (k: int)
    requires
        program.speeds(ios, memory) is Err,
    ensures
        0 <= k < ios.len(),
        program.run_io(ios[k], memory) is Err,
        program.run_io(ios[k], memory)->Err_0 == program.speeds(ios, memory)->Err_0,
    decreases ios.len(),
{
    if program.speeds(ios.drop_last(), memory) is Err {
        lemma_failed_test(program, ios.drop_last(), memory)
    } else {
        ios.len() - 1
    }
}

/// Validation is sound: a program that passed validation against a problem
/// never stops, on any test from the problem's memory nor on the problem as a
/// whole, for one of the defects that validation looks for.
pub proof fn lemma_validation_soundness(program: ProgramModel, problem: ProblemModel)
    requires
        program.fits(problem),
    ensures
        forall|io: IoModel| #[trigger]
            program.run_io(io, problem.memory) matches Err(error) ==> !error.is_structural(),
        program.run(problem) matches Err(error) ==> !error.is_structural(),
{
    assert forall|io: IoModel| #[trigger]
        program.run_io(io, problem.memory) matches Err(error) ==> !error.is_structural() by {
        lemma_validated_run_from(
            program,
            problem,
            Machine::start(io.input, io.output, problem.memory),
        );
    }
    if program.speeds(problem.ios, problem.memory) is Err {
        lemma_failed_test(program, problem.ios, problem.memory);
    }
}

/// A run is determined by what the program and the problem are: on programs
/// that are the same value and problems that are the same value, validation
/// gives the same verdict and a run gives the same score or the same error.
/// Of the problem, a run looks at nothing but its tests and its memory.
pub proof fn lemma_run_is_deterministic(
    program: Program,
    problem: Problem,
    other_program: Program,
    other_problem: Problem,
)
    requires
        program@ == other_program@,
    ensures
        problem@ == other_problem@ ==> program@.violation(problem@) == other_program@.violation(
            other_problem@,
        ),
        problem@.ios == other_problem@.ios && problem@.memory == other_problem@.memory
            ==> program@.run(problem@) == other_program@.run(other_problem@),
{
}

} // verus!
