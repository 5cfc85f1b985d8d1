//! Literal constants of a program. Floating-point literals are held as the
//! 64-bit pattern of their value.
use vstd::prelude::*;

verus! {

/// A constant written in a program. A signed literal is a negation applied to
/// an unsigned one.
#[derive(Debug, Clone, Copy, PartialEq, Eq, Structural)]
pub enum Literal {
    /// A floating-point literal, by the bits of its `f64` value.
    FLOAT(u64),
    /// An integer literal.
    INTEGER(u64),
    /// `false` or `true`.
    BOOL(bool),
    /// Up to eight characters packed into one value, by its bits.
    PACKEDSTRING(u64),
}

} // verus!
