use crate::error::InternalError;
use vstd::prelude::*;

verus! {

/// The operations of the machine.
#[derive(Clone, Copy, Debug, PartialEq, Eq, Structural)]
pub enum OpCode {
    /// Push a constant; one operand byte, the constant's index in the pool.
    Constant,
    /// Pop a value and report it as the program's result.
    Return,
    /// Replace the top of the stack by its negation.
    Negate,
    /// Replace the two topmost values by their sum.
    Add,
    /// Replace the two topmost values by their difference.
    Subtract,
    /// Replace the two topmost values by their product.
    Multiply,
    /// Replace the two topmost values by their quotient.
    Divide,
}

impl OpCode {
    /// The byte that stands for this opcode in an instruction stream.
    pub open spec fn tag(self) -> u8 {
        match self {
            OpCode::Constant => 0,
            OpCode::Return => 1,
            OpCode::Negate => 2,
            OpCode::Add => 3,
            OpCode::Subtract => 4,
            OpCode::Multiply => 5,
            OpCode::Divide => 6,
        }
    }

    /// The opcode that `byte` stands for, if it stands for one.
    pub open spec fn from_tag(byte: u8) -> Option<OpCode> {
        if byte == 0 {
            Some(OpCode::Constant)
        } else if byte == 1 {
            Some(OpCode::Return)
        } else if byte == 2 {
            Some(OpCode::Negate)
        } else if byte == 3 {
            Some(OpCode::Add)
        } else if byte == 4 {
            Some(OpCode::Subtract)
        } else if byte == 5 {
            Some(OpCode::Multiply)
        } else if byte == 6 {
            Some(OpCode::Divide)
        } else {
            None
        }
    }

    /// How many operand bytes follow the opcode byte.
    pub open spec fn operand_bytes(self) -> nat {
        match self {
            OpCode::Constant => 1,
            _ => 0,
        }
    }

    /// How many values the operation takes from the stack.
    pub open spec fn pops(self) -> nat {
        match self {
            OpCode::Constant => 0,
            OpCode::Return | OpCode::Negate => 1,
            OpCode::Add | OpCode::Subtract | OpCode::Multiply | OpCode::Divide => 2,
        }
    }

    /// How many values the operation leaves on the stack in their place.
    pub open spec fn pushes(self) -> nat {
        match self {
            OpCode::Return => 0,
            _ => 1,
        }
    }

    /// The name under which the disassembler shows the opcode.
    pub open spec fn mnemonic_text(self) -> Seq<char> {
        match self {
            OpCode::Constant => "OP_CONSTANT"@,
            OpCode::Return => "OP_RETURN"@,
            OpCode::Negate => "OP_NEGATE"@,
            OpCode::Add => "OP_ADD"@,
            OpCode::Subtract => "OP_SUB"@,
            OpCode::Multiply => "OP_MUL"@,
            OpCode::Divide => "OP_DIV"@,
        }
    }

    /// Encodes the opcode as its tag.
    pub fn to_byte(self) -> (byte: u8)
        ensures
            byte == self.tag(),
    {
        match self {
            OpCode::Constant => 0,
            OpCode::Return => 1,
            OpCode::Negate => 2,
            OpCode::Add => 3,
            OpCode::Subtract => 4,
            OpCode::Multiply => 5,
            OpCode::Divide => 6,
        }
    }

    /// The opcode's mnemonic.
    pub fn mnemonic(self) -> (name: &'static str)
        ensures
            name@ == self.mnemonic_text(),
    {
        match self {
            OpCode::Constant => "OP_CONSTANT",
            OpCode::Return => "OP_RETURN",
            OpCode::Negate => "OP_NEGATE",
            OpCode::Add => "OP_ADD",
            OpCode::Subtract => "OP_SUB",
            OpCode::Multiply => "OP_MUL",
            OpCode::Divide => "OP_DIV",
        }
    }
}

/// Decodes an instruction byte. Every byte is either the tag of exactly one
/// opcode or rejected.
pub fn as_opcode(bytecode: u8) -> (r: Result<OpCode, InternalError>)
    ensures
        r == match OpCode::from_tag(bytecode) {
            Some(op) => Ok::<OpCode, InternalError>(op),
            None => Err(InternalError::UnknownOpcode { byte: bytecode }),
        },
{
    match bytecode {
        0 => Ok(OpCode::Constant),
        1 => Ok(OpCode::Return),
        2 => Ok(OpCode::Negate),
        3 => Ok(OpCode::Add),
        4 => Ok(OpCode::Subtract),
        5 => Ok(OpCode::Multiply),
        6 => Ok(OpCode::Divide),
        _ => Err(InternalError::UnknownOpcode { byte: bytecode }),
    }
}

} // verus!
