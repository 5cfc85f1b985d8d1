//! The bytecode generator's view of symbols and scopes.
pub mod symbols;
pub mod scope;
pub mod program_code_builder;
pub mod barracuda_backend;
pub mod stack_estimator;
