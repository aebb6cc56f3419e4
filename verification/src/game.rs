pub mod game_state;
pub mod problem;
pub mod value;
