//! A small stack-based bytecode machine.
//!
//! A [`Chunk`] holds a stream of instruction bytes, the source line of every
//! byte and a pool of constants. The disassembler turns a chunk back into
//! readable lines, and the [`VM`] executes it against an operand stack.
//!
//! Values are IEEE 754 doubles, carried by their bit patterns. The machine
//! moves values between the constant pool and the stack and decides which
//! operands an operation gets; the arithmetic itself is done by a function
//! that the caller hands in. Nothing in this crate prints: what a program
//! reports, and what a trace shows, is returned to the caller.

pub mod chunk;
pub mod disassembler;
pub mod error;
pub mod instruction;
pub mod laws;
pub mod opcode;
pub mod text;
pub mod value;
pub mod vm;

pub use chunk::{Chunk, ChunkView, MAX_CONSTANTS};
pub use disassembler::{header, LineColumn, Listing, ListingLine};
pub use error::{InternalError, ProducerError};
pub use instruction::Instruction;
pub use opcode::{as_opcode, OpCode};
pub use value::{Arithmetic, Value};
pub use vm::{Action, Execution, Halt, InterpretResult, TraceEntry, VM};
