use crate::chunk::{Chunk, ChunkView};
use crate::error::InternalError;
use crate::opcode::{as_opcode, OpCode};
use crate::value::Value;
use vstd::prelude::*;

verus! {

/// One decoded instruction: an opcode together with what its operand refers
/// to.
#[derive(Clone, Copy, Debug, PartialEq, Eq, Structural)]
pub enum Instruction {
    /// Push `value`, which the pool holds at `index`.
    Constant { index: u8, value: Value },
    Return,
    Negate,
    Add,
    Subtract,
    Multiply,
    Divide,
}

impl Instruction {
    /// The instruction's opcode.
    pub open spec fn spec_opcode(self) -> OpCode {
        match self {
            Instruction::Constant { .. } => OpCode::Constant,
            Instruction::Return => OpCode::Return,
            Instruction::Negate => OpCode::Negate,
            Instruction::Add => OpCode::Add,
            Instruction::Subtract => OpCode::Subtract,
            Instruction::Multiply => OpCode::Multiply,
            Instruction::Divide => OpCode::Divide,
        }
    }

    /// The number of bytes that the instruction takes in the stream.
    pub open spec fn spec_width(self) -> usize {
        match self {
            Instruction::Constant { .. } => 2,
            _ => 1,
        }
    }

    /// The instruction's opcode.
    #[verifier::when_used_as_spec(spec_opcode)]
    pub fn opcode(self) -> (op: OpCode)
        ensures
            op == self.spec_opcode(),
    {
        match self {
            Instruction::Constant { .. } => OpCode::Constant,
            Instruction::Return => OpCode::Return,
            Instruction::Negate => OpCode::Negate,
            Instruction::Add => OpCode::Add,
            Instruction::Subtract => OpCode::Subtract,
            Instruction::Multiply => OpCode::Multiply,
            Instruction::Divide => OpCode::Divide,
        }
    }

    /// The number of bytes that the instruction takes in the stream: the
    /// opcode byte and its operand bytes.
    #[verifier::when_used_as_spec(spec_width)]
    pub fn width(self) -> (n: usize)
        ensures
            n == self.spec_width(),
            n == 1 + self.spec_opcode().operand_bytes(),
    {
        match self {
            Instruction::Constant { .. } => 2,
            _ => 1,
        }
    }
}

impl ChunkView {
    /// The instruction that starts at `offset`.
    ///
    /// Decoding fails where the stream ends before the instruction does,
    /// where the byte at `offset` is no opcode, and where a constant's index
    /// points outside the pool.
    pub open spec fn decode(self, offset: int) -> Result<Instruction, InternalError> {
        if !(0 <= offset < self.instructions.len()) {
            Err(InternalError::InstructionOutOfRange { offset: offset as usize })
        } else {
            match OpCode::from_tag(self.instructions[offset]) {
                None => Err(InternalError::UnknownOpcode { byte: self.instructions[offset] }),
                Some(OpCode::Constant) => self.decode_constant(offset),
                Some(OpCode::Return) => Ok(Instruction::Return),
                Some(OpCode::Negate) => Ok(Instruction::Negate),
                Some(OpCode::Add) => Ok(Instruction::Add),
                Some(OpCode::Subtract) => Ok(Instruction::Subtract),
                Some(OpCode::Multiply) => Ok(Instruction::Multiply),
                Some(OpCode::Divide) => Ok(Instruction::Divide),
            }
        }
    }

    /// The `Constant` instruction whose opcode byte is at `offset`: its
    /// operand is the next byte.
    pub open spec fn decode_constant(self, offset: int) -> Result<Instruction, InternalError> {
        if offset + 1 >= self.instructions.len() {
            Err(InternalError::InstructionOutOfRange { offset: (offset + 1) as usize })
        } else {
            let index = self.instructions[offset + 1];
            if index >= self.constants.len() {
                Err(InternalError::ConstantOutOfRange { index: index as usize })
            } else {
                Ok(Instruction::Constant { index, value: self.constants[index as int] })
            }
        }
    }
}

impl Chunk {
    /// Decodes the instruction that starts at `offset`.
    pub fn decode(&self, offset: usize) -> (r: Result<Instruction, InternalError>)
        ensures
            r == self@.decode(offset as int),
    {
        let byte = match self.instruction_at(offset) {
            Ok(byte) => byte,
            Err(e) => {
                return Err(e);
            },
        };
        match as_opcode(byte) {
            Err(e) => Err(e),
            Ok(OpCode::Constant) => self.constant_instruction(offset),
            Ok(OpCode::Return) => Ok(Instruction::Return),
            Ok(OpCode::Negate) => Ok(Instruction::Negate),
            Ok(OpCode::Add) => Ok(Instruction::Add),
            Ok(OpCode::Subtract) => Ok(Instruction::Subtract),
            Ok(OpCode::Multiply) => Ok(Instruction::Multiply),
            Ok(OpCode::Divide) => Ok(Instruction::Divide),
        }
    }

    /// The instruction that pushes a constant, its opcode byte being at
    /// `offset`: reads the operand byte and looks the constant up.
    fn constant_instruction(&self, offset: usize) -> (r: Result<Instruction, InternalError>)
        requires
            offset < self@.instructions.len(),
        ensures
            r == self@.decode_constant(offset as int),
    {
        proof {
            self.lengths_fit();
        }
        let index = match self.instruction_at(offset + 1) {
            Ok(index) => index,
            Err(e) => {
                return Err(e);
            },
        };
        match self.constant_at(index as usize) {
            Ok(value) => Ok(Instruction::Constant { index, value }),
            Err(e) => Err(e),
        }
    }
}

/// An instruction that decodes lies within the stream, its operand byte
/// included.
pub proof fn decoded_within(chunk: ChunkView, offset: int)
    requires
        chunk.decode(offset) is Ok,
    ensures
        0 <= offset,
        offset + chunk.decode(offset)->Ok_0.spec_width() <= chunk.instructions.len(),
{
}

} // verus!
