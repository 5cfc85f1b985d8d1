//! The MathStack virtual machine: its operations and instructions.
pub mod ops;
pub mod instructions;
pub mod thread_context;
pub mod step;
