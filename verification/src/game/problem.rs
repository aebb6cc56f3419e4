//! Problems: tests, a memory and the instructions allowed.

use std::collections::HashMap;
use vstd::hash_set::StringHashSet;
use vstd::prelude::*;

use crate::code::commands::{commands, is_keyword, CommandFactory};
use crate::game::value::Value;

verus! {

broadcast use vstd::std_specs::hash::group_hash_axioms;

/// One test of a problem: the values handed in, and the values expected back
/// in order.
#[derive(Debug, PartialEq)]
pub struct ProblemIO {
    pub input: Vec<Value>,
    pub output: Vec<Value>,
}

/// A [ProblemIO] as a mathematical value.
pub struct IoModel {
    pub input: Seq<Value>,
    pub output: Seq<Value>,
}

impl View for ProblemIO {
    type V = IoModel;

    open spec fn view(&self) -> IoModel {
        IoModel { input: self.input@, output: self.output@ }
    }
}

/// The tests of a list, each as a mathematical value.
pub open spec fn ios_of(ios: Seq<ProblemIO>) -> Seq<IoModel> {
    Seq::new(ios.len(), |i: int| ios[i]@)
}

/// A puzzle: its tests, the memory that every test starts from, and the
/// keywords of the instructions that a solution may use.
pub struct Problem {
    pub title: String,
    pub description: String,
    pub ios: Vec<ProblemIO>,
    pub memory: Vec<Option<Value>>,
    pub available_commands: StringHashSet,
}

/// A [Problem] as a mathematical value.
pub struct ProblemModel {
    pub title: Seq<char>,
    pub description: Seq<char>,
    pub ios: Seq<IoModel>,
    pub memory: Seq<Option<Value>>,
    pub available_commands: Set<Seq<char>>,
}

impl View for Problem {
    type V = ProblemModel;

    open spec fn view(&self) -> ProblemModel {
        ProblemModel {
            title: self.title@,
            description: self.description@,
            ios: ios_of(self.ios@),
            memory: self.memory@,
            available_commands: self.available_commands@,
        }
    }
}

impl Problem {
    /// A problem made of its parts.
    pub fn new(
        title: String,
        description: String,
        ios: Vec<ProblemIO>,
        memory: Vec<Option<Value>>,
        available_commands: StringHashSet,
    ) -> (problem: Self)
        ensures
            problem@ == (ProblemModel {
                title: title@,
                description: description@,
                ios: ios_of(ios@),
                memory: memory@,
                available_commands: available_commands@,
            }),
    {
        Self { title, description, ios, memory, available_commands }
    }

    /// The tests of the problem.
    pub fn get_ios(&self) -> (ios: &Vec<ProblemIO>)
        ensures
            ios == self.ios,
    {
        &self.ios
    }

    /// The memory that every test starts from.
    pub fn get_memory(&self) -> (memory: &Vec<Option<Value>>)
        ensures
            memory == self.memory,
    {
        &self.memory
    }

    /// Whether the problem allows the instruction with this keyword.
    pub fn is_command_available(&self, command: &str) -> (r: bool)
        ensures
            r == self@.available_commands.contains(command@),
    {
        self.available_commands.contains(command)
    }
}

/// The memory that a builder makes of a size and of the cells filled so far:
/// as many cells as the size says, none where no size was given; a cell holds
/// the value it was filled with last, and nothing if it was never filled. What
/// was filled in at or behind the size is left out.
pub open spec fn memory_of(dim: Option<usize>, slots: Map<usize, Value>) -> Seq<Option<Value>> {
    Seq::new(
        match dim {
            Some(dim) => dim as nat,
            None => 0,
        },
        |i: int|
            if slots.contains_key(i as usize) {
                Some(slots[i as usize])
            } else {
                None
            },
    )
}

/// The keyword of every instruction.
pub open spec fn all_commands() -> Set<Seq<char>> {
    Set::new(|keyword: Seq<char>| is_keyword(keyword))
}

/// Describes a problem step by step.
pub struct ProblemBuilder {
    title: String,
    description: String,
    ios: Vec<ProblemIO>,
    memory: HashMap<usize, Value>,
    memory_dim: Option<usize>,
    available_commands: StringHashSet,
}

/// What a [ProblemBuilder] has been told so far.
pub struct Draft {
    pub title: Seq<char>,
    pub description: Seq<char>,
    pub ios: Seq<IoModel>,
    pub memory: Map<usize, Value>,
    pub memory_dim: Option<usize>,
    pub available_commands: Set<Seq<char>>,
}

impl Draft {
    /// Nothing told yet.
    pub open spec fn empty() -> Draft {
        Draft {
            title: Seq::empty(),
            description: Seq::empty(),
            ios: Seq::empty(),
            memory: Map::empty(),
            memory_dim: None,
            available_commands: Set::empty(),
        }
    }

    /// The problem that the draft describes.
    pub open spec fn problem(self) -> ProblemModel {
        ProblemModel {
            title: self.title,
            description: self.description,
            ios: self.ios,
            memory: memory_of(self.memory_dim, self.memory),
            available_commands: self.available_commands,
        }
    }
}

impl View for ProblemBuilder {
    type V = Draft;

    closed spec fn view(&self) -> Draft {
        Draft {
            title: self.title@,
            description: self.description@,
            ios: ios_of(self.ios@),
            memory: self.memory@,
            memory_dim: self.memory_dim,
            available_commands: self.available_commands@,
        }
    }
}

impl Default for ProblemBuilder {
    fn default() -> (builder: Self)
        ensures
            builder@ == Draft::empty(),
    {
        Self::new()
    }
}

impl ProblemBuilder {
    /// A builder that has been told nothing yet.
    pub fn new() -> (builder: Self)
        ensures
            builder@ == Draft::empty(),
    {
        let builder = Self {
            title: String::new(),
            description: String::new(),
            ios: Vec::new(),
            memory: HashMap::new(),
            memory_dim: None,
            available_commands: StringHashSet::new(),
        };
        assert(builder@.ios =~= Seq::empty());
        builder
    }

    /// Gives the problem its title.
    pub fn title(self, title: String) -> (builder: Self)
        ensures
            builder@ == (Draft { title: title@, ..self@ }),
    {
        let mut builder = self;
        builder.title = title;
        builder
    }

    /// Gives the problem its description.
    pub fn description(self, description: String) -> (builder: Self)
        ensures
            builder@ == (Draft { description: description@, ..self@ }),
    {
        let mut builder = self;
        builder.description = description;
        builder
    }

    /// Adds a test behind the tests added so far.
    pub fn add_io(self, problem_io: ProblemIO) -> (builder: Self)
        ensures
            builder@ == (Draft { ios: self@.ios.push(problem_io@), ..self@ }),
    {
        let mut builder = self;
        builder.ios.push(problem_io);
        assert(ios_of(builder.ios@) =~= ios_of(self.ios@).push(problem_io@));
        builder
    }

    /// States the number of cells of the memory.
    pub fn memory_dim(self, dim: usize) -> (builder: Self)
        ensures
            builder@ == (Draft { memory_dim: Some(dim), ..self@ }),
    {
        let mut builder = self;
        builder.memory_dim = Some(dim);
        builder
    }

    /// Fills a cell of the memory with a value.
    pub fn add_memory_slot(self, slot: usize, value: Value) -> (builder: Self)
        ensures
            builder@ == (Draft { memory: self@.memory.insert(slot, value), ..self@ }),
    {
        let mut builder = self;
        builder.memory.insert(slot, value);
        builder
    }

    /// Allows every instruction, and nothing else.
    pub fn enable_all_commands(self) -> (builder: Self)
        ensures
            builder@ == (Draft { available_commands: all_commands(), ..self@ }),
    {
        let mut builder = self;
        builder.available_commands = every_command();
        builder
    }

    /// Allows the instruction with this keyword, if there is one.
    pub fn enable_command(self, command: String) -> (builder: Self)
        ensures
            builder@ == (Draft {
                available_commands: if is_keyword(command@) {
                    self@.available_commands.insert(command@)
                } else {
                    self@.available_commands
                },
                ..self@
            }),
    {
        let mut builder = self;
        if is_known_command(command.as_str()) {
            builder.available_commands.insert(command);
        }
        builder
    }

    /// Allows the instruction with this keyword no longer.
    pub fn disable_command(self, command: &str) -> (builder: Self)
        ensures
            builder@ == (Draft { available_commands: self@.available_commands.remove(command@), ..self@ }),
    {
        let mut builder = self;
        builder.available_commands.remove(command);
        builder
    }

    /// The problem described so far.
    pub fn build(self) -> (problem: Problem)
        ensures
            problem@ == self@.problem(),
    {
        let memory = match self.memory_dim {
            Some(memory_dim) => lay_out(memory_dim, &self.memory),
            None => Vec::new(),
        };
        assert(memory@ =~= memory_of(self.memory_dim, self.memory@));
        Problem::new(self.title, self.description, self.ios, memory, self.available_commands)
    }
}

/// A memory of `dim` cells, of which those hold a value that `slots` fills.
pub fn lay_out(dim: usize, slots: &HashMap<usize, Value>) -> (memory: Vec<Option<Value>>)
    ensures
        memory@ == memory_of(Some(dim), slots@),
{
    let mut memory: Vec<Option<Value>> = Vec::new();
    let mut i: usize = 0;
    while i < dim
        invariant
            i <= dim,
            memory@ == memory_of(Some(i), slots@),
        decreases dim - i,
    {
        let cell = match slots.get(&i) {
            Some(value) => Some(*value),
            None => None,
        };
        memory.push(cell);
        i += 1;
    }
    memory
}

/// The set of the keywords of all instructions.
pub fn every_command() -> (enabled: StringHashSet)
    ensures
        enabled@ == all_commands(),
{
    let factories = commands();
    let mut enabled = StringHashSet::new();
    let mut i: usize = 0;
    while i < factories.len()
        invariant
            i <= factories.len(),
            forall|factory| factories@.contains(factory),
            forall|keyword: Seq<char>|
                enabled@.contains(keyword) <==> exists|j: int|
                    0 <= j < i && #[trigger] factories[j].keyword() == keyword,
        decreases factories.len() - i,
    {
        enabled.insert(factories[i].command().to_owned());
        i += 1;
    }
    assert forall|keyword: Seq<char>| enabled@.contains(keyword) <==> is_keyword(keyword) by {
        if is_keyword(keyword) {
            let factory = choose|factory| #[trigger] CommandFactory::keyword(&factory) == keyword;
            assert(factories@.contains(factory));
        }
    }
    enabled
}

/// Whether `command` is the keyword of an instruction.
pub fn is_known_command(command: &str) -> (r: bool)
    ensures
        r == is_keyword(command@),
{
    let factories = commands();
    let mut i: usize = 0;
    while i < factories.len()
        invariant
            i <= factories.len(),
            forall|factory| factories@.contains(factory),
            forall|j: int| 0 <= j < i ==> (#[trigger] factories[j]).keyword() != command@,
        decreases factories.len() - i,
    {
        if factories[i].command().eq(command) {
            return true;
        }
        i += 1;
    }
    assert(!is_keyword(command@)) by {
        if is_keyword(command@) {
            let factory = choose|factory| #[trigger] CommandFactory::keyword(&factory) == command@;
            assert(factories@.contains(factory));
        }
    }
    false
}

} // verus!
