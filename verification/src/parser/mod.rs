//! Readers of program text.
pub mod bct_parser;
