pub mod commands;
pub mod game_state;
pub mod program;
pub mod semantics;
pub mod soundness;
