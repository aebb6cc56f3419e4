//! Games: problems that have a test and a memory of a stated size.

use std::collections::HashMap;
use vstd::hash_set::StringHashSet;
use vstd::prelude::*;

use crate::code::commands::is_keyword;
use crate::game::problem::{
    all_commands, every_command, is_known_command, lay_out, memory_of, IoModel,
};
use crate::game::value::Value;

verus! {

broadcast use vstd::std_specs::hash::group_hash_axioms;

/// One test of a game: the values handed in, and the values expected back
/// in order.
#[derive(Debug, PartialEq)]
pub struct GameIO {
    pub input: Vec<Value>,
    pub output: Vec<Value>,
}

impl View for GameIO {
    type V = IoModel;

    open spec fn view(&self) -> IoModel {
        IoModel { input: self.input@, output: self.output@ }
    }
}

/// The tests of a list, each as a mathematical value.
pub open spec fn game_ios_of(ios: Seq<GameIO>) -> Seq<IoModel> {
    Seq::new(ios.len(), |i: int| ios[i]@)
}

/// A game as it is set up: at least one test, a memory of a stated size, and
/// the keywords of the instructions that a player may use.
pub struct GameState {
    pub ios: Vec<GameIO>,
    pub memory: Vec<Option<Value>>,
    pub available_commands: StringHashSet,
}

/// A [GameState] as a mathematical value.
pub struct Game {
    pub ios: Seq<IoModel>,
    pub memory: Seq<Option<Value>>,
    pub available_commands: Set<Seq<char>>,
}

impl View for GameState {
    type V = Game;

    open spec fn view(&self) -> Game {
        Game {
            ios: game_ios_of(self.ios@),
            memory: self.memory@,
            available_commands: self.available_commands@,
        }
    }
}

impl GameState {
    /// The tests of the game.
    pub fn get_ios(&self) -> (ios: &Vec<GameIO>)
        ensures
            ios == self.ios,
    {
        &self.ios
    }

    /// The memory that every test starts from.
    pub fn get_memory(&self) -> (memory: &Vec<Option<Value>>)
        ensures
            memory == self.memory,
    {
        &self.memory
    }

    /// Whether the game allows the instruction with this keyword.
    pub fn is_command_available(&self, command: &str) -> (r: bool)
        ensures
            r == self@.available_commands.contains(command@),
    {
        self.available_commands.contains(command)
    }
}

/// Sets a game up step by step.
pub struct GameStateBuilder {
    ios: Vec<GameIO>,
    memory: HashMap<usize, Value>,
    memory_dim: Option<usize>,
    available_commands: StringHashSet,
}

/// What a [GameStateBuilder] has been told so far.
pub struct GameDraft {
    pub ios: Seq<IoModel>,
    pub memory: Map<usize, Value>,
    pub memory_dim: Option<usize>,
    pub available_commands: Set<Seq<char>>,
}

impl GameDraft {
    /// Nothing told yet.
    pub open spec fn empty() -> GameDraft {
        GameDraft {
            ios: Seq::empty(),
            memory: Map::empty(),
            memory_dim: None,
            available_commands: Set::empty(),
        }
    }

    /// The draft describes a game: it has a test, it states the size of the
    /// memory, and every cell that it fills lies within that size.
    pub open spec fn is_complete(self) -> bool {
        &&& self.ios.len() > 0
        &&& self.memory_dim is Some
        &&& forall|slot: usize| self.memory.contains_key(slot) ==> slot < self.memory_dim->0
    }

    /// The game that the draft describes.
    pub open spec fn game(self) -> Game {
        Game {
            ios: self.ios,
            memory: memory_of(self.memory_dim, self.memory),
            available_commands: self.available_commands,
        }
    }
}

impl View for GameStateBuilder {
    type V = GameDraft;

    closed spec fn view(&self) -> GameDraft {
        GameDraft {
            ios: game_ios_of(self.ios@),
            memory: self.memory@,
            memory_dim: self.memory_dim,
            available_commands: self.available_commands@,
        }
    }
}

impl GameStateBuilder {
    /// A builder that has been told nothing yet.
    pub fn new() -> (builder: Self)
        ensures
            builder@ == GameDraft::empty(),
    {
        let builder = Self {
            ios: Vec::new(),
            memory: HashMap::new(),
            memory_dim: None,
            available_commands: StringHashSet::new(),
        };
        assert(builder@.ios =~= Seq::empty());
        builder
    }

    /// Adds a test behind the tests added so far.
    pub fn add_io(self, game_io: GameIO) -> (builder: Self)
        ensures
            builder@ == (GameDraft { ios: self@.ios.push(game_io@), ..self@ }),
    {
        let mut builder = self;
        builder.ios.push(game_io);
        assert(game_ios_of(builder.ios@) =~= game_ios_of(self.ios@).push(game_io@));
        builder
    }

    /// States the number of cells of the memory.
    pub fn memory_dim(self, dim: usize) -> (builder: Self)
        ensures
            builder@ == (GameDraft { memory_dim: Some(dim), ..self@ }),
    {
        let mut builder = self;
        builder.memory_dim = Some(dim);
        builder
    }

    /// Fills a cell of the memory with a value.
    pub fn add_memory_slot(self, slot: usize, value: Value) -> (builder: Self)
        ensures
            builder@ == (GameDraft { memory: self@.memory.insert(slot, value), ..self@ }),
    {
        let mut builder = self;
        builder.memory.insert(slot, value);
        builder
    }

    /// Allows every instruction, and nothing else.
    pub fn enable_all_commands(self) -> (builder: Self)
        ensures
            builder@ == (GameDraft { available_commands: all_commands(), ..self@ }),
    {
        let mut builder = self;
        builder.available_commands = every_command();
        builder
    }

    /// Allows the instruction with this keyword, if there is one.
    pub fn enable_command(self, command: &str) -> (builder: Self)
        ensures
            builder@ == (GameDraft {
                available_commands: if is_keyword(command@) {
                    self@.available_commands.insert(command@)
                } else {
                    self@.available_commands
                },
                ..self@
            }),
    {
        let mut builder = self;
        if is_known_command(command) {
            builder.available_commands.insert(command.to_owned());
        }
        builder
    }

    /// Allows the instruction with this keyword no longer.
    pub fn disable_command(self, command: &str) -> (builder: Self)
        ensures
            builder@ == (GameDraft {
                available_commands: self@.available_commands.remove(command@),
                ..self@
            }),
    {
        let mut builder = self;
        builder.available_commands.remove(command);
        builder
    }

    /// The game that the builder was told of. The builder has to be
    /// complete.
    pub fn build(self) -> (state: GameState)
        requires
            self@.is_complete(),
        ensures
            state@ == self@.game(),
    {
        let dim = match self.memory_dim {
            Some(memory_dim) => memory_dim,
            None => 0,
        };
        let memory = lay_out(dim, &self.memory);
        GameState { ios: self.ios, memory, available_commands: self.available_commands }
    }
}

} // verus!
