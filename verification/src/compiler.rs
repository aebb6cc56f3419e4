pub mod compile;
pub mod grammar;
pub mod scan;
