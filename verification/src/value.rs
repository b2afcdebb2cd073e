use vstd::prelude::*;

verus! {

/// A runtime value: an IEEE 754 double, held by its 64 bits.
///
/// The machine copies values and never looks inside them. Two values are
/// equal when their bit patterns are, so a NaN equals itself and the two
/// zeros differ.
#[derive(Clone, Copy, Debug, PartialEq, Eq, Structural)]
pub struct Value {
    pub bits: u64,
}

/// An operation on values that the machine asks its caller to carry out.
///
/// For the operations with two operands, `lhs` is the value that was pushed
/// first and `rhs` the one that was on top of the stack.
#[derive(Clone, Copy, Debug, PartialEq, Eq, Structural)]
pub enum Arithmetic {
    Negate { operand: Value },
    Add { lhs: Value, rhs: Value },
    Subtract { lhs: Value, rhs: Value },
    Multiply { lhs: Value, rhs: Value },
    Divide { lhs: Value, rhs: Value },
}

} // verus!
