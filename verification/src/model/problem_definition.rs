//! Problems as they are written down, and the problems they describe.

use std::collections::HashMap;
use vstd::prelude::*;
use vstd::std_specs::convert::FromSpecImpl;

use crate::code::commands::is_keyword;
use crate::game::problem::{
    ios_of, is_known_command, lay_out, memory_of, IoModel, Problem, ProblemIO, ProblemModel,
};
use crate::game::value::Value;

verus! {

broadcast use vstd::std_specs::hash::group_hash_axioms;

/// A problem as it is written down: tests, a memory in one of two forms or
/// none, and the keywords of the instructions allowed.
#[derive(Debug, PartialEq)]
pub struct ProblemDefinition {
    pub ios: Vec<ProblemDefinitionIO>,
    pub memory: Option<ProblemDefinitionMemory>,
    pub commands: Vec<String>,
}

/// One test as it is written down.
#[derive(Clone, Debug, PartialEq)]
pub struct ProblemDefinitionIO {
    pub input: Vec<Value>,
    pub output: Vec<Value>,
}

/// A memory written down in full, cell by cell, or in part, as its size and
/// the cells that hold a value. Where both forms are given, the full one counts.
#[derive(Clone, Debug, PartialEq)]
pub struct ProblemDefinitionMemory {
    pub full: Option<Vec<Option<Value>>>,
    pub partial: Option<PartialMemory>,
}

/// A memory written down as its size and the cells that hold a value.
#[derive(Clone, Debug, PartialEq)]
pub struct PartialMemory {
    pub dim: usize,
    pub values: HashMap<usize, Value>,
}

impl View for ProblemDefinitionIO {
    type V = IoModel;

    open spec fn view(&self) -> IoModel {
        IoModel { input: self.input@, output: self.output@ }
    }
}

/// The tests of a definition, each as a mathematical value.
pub open spec fn defined_ios(ios: Seq<ProblemDefinitionIO>) -> Seq<IoModel> {
    Seq::new(ios.len(), |i: int| ios[i]@)
}

/// The memory that a definition describes.
pub open spec fn defined_memory(memory: Option<ProblemDefinitionMemory>) -> Seq<Option<Value>> {
    match memory {
        Some(ProblemDefinitionMemory { full: Some(full), partial: _ }) => full@,
        Some(ProblemDefinitionMemory { full: None, partial: Some(partial) }) => memory_of(
            Some(partial.dim),
            partial.values@,
        ),
        _ => Seq::empty(),
    }
}

/// The keywords among `commands`.
pub open spec fn defined_commands(commands: Seq<String>) -> Set<Seq<char>> {
    Set::new(
        |keyword: Seq<char>|
            is_keyword(keyword) && exists|i: int| 0 <= i < commands.len() && (#[trigger] commands[i])@ == keyword,
    )
}

impl ProblemDefinition {
    /// The problem that the definition describes: its tests in order, its
    /// memory, and of its commands those that are keywords of instructions.
    /// It has no title and no description.
    pub open spec fn problem(self) -> ProblemModel {
        ProblemModel {
            title: Seq::empty(),
            description: Seq::empty(),
            ios: defined_ios(self.ios@),
            memory: defined_memory(self.memory),
            available_commands: defined_commands(self.commands@),
        }
    }
}

impl From<ProblemDefinitionIO> for ProblemIO {
    fn from(definition: ProblemDefinitionIO) -> (io: ProblemIO) {
        ProblemIO { input: definition.input, output: definition.output }
    }
}

impl FromSpecImpl<ProblemDefinitionIO> for ProblemIO {
    open spec fn obeys_from_spec() -> bool {
        true
    }

    open spec fn from_spec(definition: ProblemDefinitionIO) -> ProblemIO {
        ProblemIO { input: definition.input, output: definition.output }
    }
}

/// A copy of some values.
fn copy_values(values: &Vec<Value>) -> (copy: Vec<Value>)
    ensures
        copy@ == values@,
{
    let mut copy: Vec<Value> = Vec::new();
    let mut i: usize = 0;
    while i < values.len()
        invariant
            i <= values.len(),
            copy@ == values@.take(i as int),
        decreases values.len() - i,
    {
        copy.push(values[i]);
        i += 1;
    }
    copy
}

impl From<ProblemDefinition> for Problem {
    /// The problem that the definition describes.
    fn from(definition: ProblemDefinition) -> (problem: Problem)
        ensures
            problem@ == definition.problem(),
    {
        let mut ios: Vec<ProblemIO> = Vec::new();
        let mut i: usize = 0;
        while i < definition.ios.len()
            invariant
                i <= definition.ios.len(),
                ios@.len() == i,
                forall|k: int| 0 <= k < i ==> (#[trigger] ios@[k])@ == definition.ios@[k]@,
            decreases definition.ios.len() - i,
        {
            let definition = &definition.ios[i];
            ios.push(
                ProblemIO {
                    input: copy_values(&definition.input),
                    output: copy_values(&definition.output),
                },
            );
            i += 1;
        }
        assert(ios_of(ios@) =~= defined_ios(definition.ios@));

        let memory: Vec<Option<Value>> = match definition.memory {
            Some(ProblemDefinitionMemory { full: Some(full), partial: _ }) => full,
            Some(ProblemDefinitionMemory { full: None, partial: Some(partial) }) => lay_out(
                partial.dim,
                &partial.values,
            ),
            _ => Vec::new(),
        };

        let mut available_commands = vstd::hash_set::StringHashSet::new();
        let mut j: usize = 0;
        while j < definition.commands.len()
            invariant
                j <= definition.commands.len(),
                available_commands@ == defined_commands(definition.commands@.take(j as int)),
            decreases definition.commands.len() - j,
        {
            let ghost enabled = available_commands@;
            if is_known_command(definition.commands[j].as_str()) {
                available_commands.insert(definition.commands[j].clone());
            }
            assert(available_commands@ =~= defined_commands(definition.commands@.take(j + 1))) by {
                let before = definition.commands@.take(j as int);
                let after = definition.commands@.take(j + 1);
                assert(after[j as int] == definition.commands[j as int]);
                assert forall|keyword: Seq<char>|
                    defined_commands(after).contains(keyword) <==> (enabled.contains(keyword) || (
                    is_keyword(keyword) && keyword == definition.commands[j as int]@)) by {
                    if defined_commands(after).contains(keyword) {
                        let i = choose|i: int| 0 <= i < after.len() && (#[trigger] after[i])@ == keyword;
                        assert(i < j ==> before[i] == after[i]);
                    }
                    if enabled.contains(keyword) {
                        let i = choose|i: int|
                            0 <= i < before.len() && (#[trigger] before[i])@ == keyword;
                        assert(after[i] == before[i]);
                    }
                }
            }
            j += 1;
        }
        assert(definition.commands@.take(j as int) == definition.commands@);

        Problem::new(String::new(), String::new(), ios, memory, available_commands)
    }
}

impl FromSpecImpl<ProblemDefinition> for Problem {
    /// The conversion is stated over the problem as a mathematical value, in
    /// the contract of `from`.
    open spec fn obeys_from_spec() -> bool {
        false
    }

    open spec fn from_spec(definition: ProblemDefinition) -> Problem {
        arbitrary()
    }
}

} // verus!
