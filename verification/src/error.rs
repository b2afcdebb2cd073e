use vstd::prelude::*;

verus! {

/// A chunk that contradicts itself: a read that a well-formed chunk never
/// asks for. Decoding stops at the first one.
#[derive(Clone, Copy, Debug, PartialEq, Eq, Structural)]
pub enum InternalError {
    /// No instruction byte at `offset`: the stream ends before it.
    InstructionOutOfRange { offset: usize },
    /// No line number at `offset`.
    LineOutOfRange { offset: usize },
    /// No constant at `index`.
    ConstantOutOfRange { index: usize },
    /// `byte` stands where an opcode is expected and is the tag of none.
    UnknownOpcode { byte: u8 },
}

/// A mistake of whoever builds a chunk.
#[derive(Clone, Copy, Debug, PartialEq, Eq, Structural)]
pub enum ProducerError {
    /// The pool already holds as many constants as one operand byte can
    /// address.
    ConstantPoolFull,
}

} // verus!
