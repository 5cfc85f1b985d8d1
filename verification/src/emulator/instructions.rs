//! The instructions of the MathStack virtual machine.
use vstd::prelude::*;

verus! {

/// The data of a function-pointer instruction: the offset of the pointer.
#[derive(Debug, Clone, Copy, PartialEq, Eq, Structural)]
pub struct FuncPointerContext {
    pub ptr_offset: u8,
}

/// The instructions of the MathStack VM: run an operation, load a value,
/// jump, jump on zero, enter or end a loop, or a function pointer.
#[allow(non_camel_case_types)]
#[derive(Debug, Clone, Copy, PartialEq, Eq, Structural)]
pub enum MathStackInstructions {
    OP,
    VALUE,
    GOTO,
    GOTO_IF,
    LOOP_ENTRY,
    LOOP_END,
    FUNC_POINTER(FuncPointerContext),
}

} // verus!
