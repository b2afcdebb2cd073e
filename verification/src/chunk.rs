use crate::error::{InternalError, ProducerError};
use crate::opcode::OpCode;
use crate::value::Value;
use vstd::prelude::*;

verus! {

/// The most constants a pool can hold: as many as one operand byte can
/// address.
pub const MAX_CONSTANTS: usize = 256;

/// What a chunk is: three sequences.
pub struct ChunkView {
    /// Opcode tags and operand bytes, in the order in which they were
    /// appended.
    pub instructions: Seq<u8>,
    /// The source line of every byte of `instructions`.
    pub lines: Seq<usize>,
    /// The constant pool.
    pub constants: Seq<Value>,
}

impl ChunkView {
    /// The chunk without instructions or constants.
    pub open spec fn empty() -> ChunkView {
        ChunkView { instructions: Seq::empty(), lines: Seq::empty(), constants: Seq::empty() }
    }

    /// Every byte has its line, and every constant can be addressed by one
    /// byte.
    pub open spec fn wf(self) -> bool {
        &&& self.lines.len() == self.instructions.len()
        &&& self.constants.len() <= MAX_CONSTANTS
    }

    /// This chunk with one more byte, from source line `line`.
    pub open spec fn with_byte(self, byte: u8, line: usize) -> ChunkView {
        ChunkView {
            instructions: self.instructions.push(byte),
            lines: self.lines.push(line),
            constants: self.constants,
        }
    }

    /// Whether the pool has room for another constant.
    pub open spec fn has_room(self) -> bool {
        self.constants.len() < MAX_CONSTANTS
    }

    /// This chunk with one more constant at the end of its pool.
    pub open spec fn with_constant(self, value: Value) -> ChunkView {
        ChunkView {
            instructions: self.instructions,
            lines: self.lines,
            constants: self.constants.push(value),
        }
    }

    /// What appending a constant comes to: the chunk afterwards, and the
    /// index of the constant or the refusal of a full pool.
    pub open spec fn append_constant(self, value: Value) -> (ChunkView, Result<u8, ProducerError>) {
        if self.has_room() {
            (self.with_constant(value), Ok(self.constants.len() as u8))
        } else {
            (self, Err(ProducerError::ConstantPoolFull))
        }
    }

    /// Whether `later` is this chunk with more appended to it: whatever this
    /// chunk holds, `later` holds at the same place.
    pub open spec fn grows_to(self, later: ChunkView) -> bool {
        &&& self.instructions.is_prefix_of(later.instructions)
        &&& self.lines.is_prefix_of(later.lines)
        &&& self.constants.is_prefix_of(later.constants)
    }
}

/// A unit of bytecode: instruction bytes, their source lines and the
/// constants they refer to.
///
/// A chunk only grows. Whoever builds it appends opcodes, operand bytes and
/// constants; afterwards the disassembler and the machine read it.
pub struct Chunk {
    instructions: Vec<u8>,
    lines: Vec<usize>,
    constants: Vec<Value>,
}

impl View for Chunk {
    type V = ChunkView;

    closed spec fn view(&self) -> ChunkView {
        ChunkView {
            instructions: self.instructions@,
            lines: self.lines@,
            constants: self.constants@,
        }
    }
}

impl Chunk {
    /// An empty chunk.
    pub fn new() -> (chunk: Chunk)
        ensures
            chunk@ == ChunkView::empty(),
    {
        Chunk { instructions: Vec::new(), lines: Vec::new(), constants: Vec::new() }
    }

    /// Appends the tag of `val`, which stems from source line `line`.
    pub fn append_instruction(&mut self, val: OpCode, line: usize)
        ensures
            final(self)@ == old(self)@.with_byte(val.tag(), line),
            old(self)@.grows_to(final(self)@),
    {
        self.instructions.push(val.to_byte());
        self.lines.push(line);
    }

    /// Appends an operand byte of the instruction that stems from source
    /// line `line`. Whether the byte makes sense as an operand is up to the
    /// caller.
    pub fn append_parameter(&mut self, val: u8, line: usize)
        ensures
            final(self)@ == old(self)@.with_byte(val, line),
            old(self)@.grows_to(final(self)@),
    {
        self.instructions.push(val);
        self.lines.push(line);
    }

    /// Appends `val` to the constant pool and returns its index, which stays
    /// valid for good. A full pool is left as it is.
    pub fn append_constant(&mut self, val: Value) -> (r: Result<u8, ProducerError>)
        ensures
            (final(self)@, r) == old(self)@.append_constant(val),
            old(self)@.grows_to(final(self)@),
    {
        let count: usize = self.constants.len();
        if count < MAX_CONSTANTS {
            self.constants.push(val);
            Ok(count as u8)
        } else {
            Err(ProducerError::ConstantPoolFull)
        }
    }

    /// The sequences of a chunk in memory have lengths that the machine can
    /// count.
    pub proof fn lengths_fit(&self)
        ensures
            self@.instructions.len() <= usize::MAX,
            self@.lines.len() <= usize::MAX,
            self@.constants.len() <= usize::MAX,
    {
        assert(self.instructions@.len() == self.instructions.len());
        assert(self.lines@.len() == self.lines.len());
        assert(self.constants@.len() == self.constants.len());
    }

    /// The number of bytes in the instruction stream.
    pub fn len(&self) -> (n: usize)
        ensures
            n == self@.instructions.len(),
    {
        self.instructions.len()
    }

    /// The instruction byte at `offset`.
    pub fn instruction_at(&self, offset: usize) -> (r: Result<u8, InternalError>)
        ensures
            offset < self@.instructions.len() ==> r == Ok::<u8, InternalError>(
                self@.instructions[offset as int],
            ),
            offset >= self@.instructions.len() ==> r == Err::<u8, InternalError>(
                InternalError::InstructionOutOfRange { offset },
            ),
    {
        if offset < self.instructions.len() {
            Ok(self.instructions[offset])
        } else {
            Err(InternalError::InstructionOutOfRange { offset })
        }
    }

    /// The source line of the byte at `offset`.
    pub fn line_at(&self, offset: usize) -> (r: Result<usize, InternalError>)
        ensures
            offset < self@.lines.len() ==> r == Ok::<usize, InternalError>(
                self@.lines[offset as int],
            ),
            offset >= self@.lines.len() ==> r == Err::<usize, InternalError>(
                InternalError::LineOutOfRange { offset },
            ),
    {
        if offset < self.lines.len() {
            Ok(self.lines[offset])
        } else {
            Err(InternalError::LineOutOfRange { offset })
        }
    }

    /// The constant at `index`.
    pub fn constant_at(&self, index: usize) -> (r: Result<Value, InternalError>)
        ensures
            index < self@.constants.len() ==> r == Ok::<Value, InternalError>(
                self@.constants[index as int],
            ),
            index >= self@.constants.len() ==> r == Err::<Value, InternalError>(
                InternalError::ConstantOutOfRange { index },
            ),
    {
        if index < self.constants.len() {
            Ok(self.constants[index])
        } else {
            Err(InternalError::ConstantOutOfRange { index })
        }
    }
}

} // verus!
