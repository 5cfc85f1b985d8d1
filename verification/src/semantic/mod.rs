//! Semantic analysis helpers.
pub mod scope_tracker;
pub mod function_tracker;
