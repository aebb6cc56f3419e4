//! A small machine that works through a tape of values by a program of
//! eleven kinds of instructions, with a compiler for the programs written as
//! text, a validation of a program against a problem, and a run that scores
//! the program on the tests of the problem.
//!
//! Every function is verified against a contract over the values that its
//! arguments stand for: [code::semantics] says what a run is,
//! [compiler::grammar] and [compiler::compile] say what source text means.

pub mod code;
pub mod compiler;
pub mod game;
pub mod model;
pub mod strings;
