pub mod problem_definition;
