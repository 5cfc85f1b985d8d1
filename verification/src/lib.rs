//! Barracuda: a verified library for the Barracuda bytecode toolchain.
pub mod text;
pub mod ops;
pub mod instructions;
pub mod program_code;
pub mod emulator_heap;
pub mod ast;
pub mod backend;
pub mod parser;
pub mod utils;
pub mod emulator;
pub mod cli_env_var_descriptor;
pub mod double_bits;
pub mod semantic;
pub mod compiler_interface;
