//! Operators of the Barracuda language.
use vstd::prelude::*;

verus! {

/// Mathematical operations with one argument.
#[allow(non_camel_case_types)]
#[derive(Debug, Clone, Copy, PartialEq, Eq, Structural)]
pub enum UnaryOperation {
    /// `! <rhs>`
    NOT,
    /// `- <rhs>`
    NEGATE,
    /// `* <rhs>`
    PTR_DEREF,
}

/// Mathematical operations with two arguments.
#[allow(non_camel_case_types)]
#[derive(Debug, Clone, Copy, PartialEq, Eq, Structural)]
pub enum BinaryOperation {
    ADD,
    SUB,
    DIV,
    MUL,
    MOD,
    POW,
    EQUAL,
    NOT_EQUAL,
    GREATER_THAN,
    LESS_THAN,
    GREATER_EQUAL,
    LESS_EQUAL,
}

} // verus!
