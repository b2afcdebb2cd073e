use crate::chunk::{Chunk, ChunkView};
use crate::error::InternalError;
use crate::instruction::Instruction;
use crate::text::{push_zero_padded, zero_padded};
use vstd::prelude::*;

verus! {

/// What a rendered line shows in its line-number column.
#[derive(Clone, Copy, Debug, PartialEq, Eq, Structural)]
pub enum LineColumn {
    /// The source line of the instruction.
    Number(usize),
    /// A mark that stands for "the same line as the byte before".
    Same,
}

/// One instruction as the disassembler shows it.
#[derive(Clone, Copy, Debug, PartialEq, Eq, Structural)]
pub struct ListingLine {
    /// Where the instruction starts in the stream.
    pub offset: usize,
    pub line: LineColumn,
    pub instruction: Instruction,
}

/// A whole chunk as the disassembler shows it.
#[derive(Clone, Debug)]
pub struct Listing {
    /// The line that names the chunk.
    pub header: String,
    /// The instructions, in the order of the stream.
    pub lines: Vec<ListingLine>,
}

/// The header of the listing of a chunk called `name`.
pub open spec fn header_text(name: Seq<char>) -> Seq<char> {
    "== "@ + name + " =="@
}

impl LineColumn {
    /// The column as text, with the blank that ends it.
    pub open spec fn text(self) -> Seq<char> {
        match self {
            LineColumn::Number(line) => zero_padded(line as nat, 4) + " "@,
            LineColumn::Same => "   | "@,
        }
    }
}

impl Instruction {
    /// The instruction as text: its mnemonic and, for a constant, the index
    /// and between quotes the value, whose decimal form is `value_text`.
    pub open spec fn text(self, value_text: Seq<char>) -> Seq<char> {
        match self {
            Instruction::Constant { index, .. } => self.spec_opcode().mnemonic_text() + " "@
                + zero_padded(index as nat, 4) + " '"@ + value_text + "'"@,
            _ => self.spec_opcode().mnemonic_text(),
        }
    }
}

impl ListingLine {
    /// The line as text: offset, line column and instruction.
    pub open spec fn text(self, value_text: Seq<char>) -> Seq<char> {
        zero_padded(self.offset as nat, 4) + " "@ + self.line.text() + self.instruction.text(
            value_text,
        )
    }

    /// The offset at which the next instruction starts.
    pub open spec fn next_offset(self) -> int {
        self.offset + self.instruction.spec_width()
    }

    /// Renders the line. For an instruction that pushes a constant,
    /// `value_text` is the value as it is to be shown; for any other it is
    /// not looked at.
    pub fn render(&self, value_text: &str) -> (s: String)
        ensures
            s@ == self.text(value_text@),
    {
        let mut s = String::new();
        push_zero_padded(&mut s, self.offset, 4);
        s.append(" ");
        match self.line {
            LineColumn::Number(line) => {
                push_zero_padded(&mut s, line, 4);
                s.append(" ");
            },
            LineColumn::Same => {
                s.append("   | ");
            },
        }
        s.append(self.instruction.opcode().mnemonic());
        match self.instruction {
            Instruction::Constant { index, .. } => {
                s.append(" ");
                push_zero_padded(&mut s, index as usize, 4);
                s.append(" '");
                s.append(value_text);
                s.append("'");
            },
            _ => {},
        }
        s
    }
}

impl ChunkView {
    /// The line-number column of the instruction at `offset`. The number is
    /// shown unless the byte before `offset` stems from the same source
    /// line; the first instruction always shows it.
    pub open spec fn line_column(self, offset: int) -> Result<LineColumn, InternalError> {
        if !(0 <= offset < self.lines.len()) {
            Err(InternalError::LineOutOfRange { offset: offset as usize })
        } else if offset > 0 && self.lines[offset - 1] == self.lines[offset] {
            Ok(LineColumn::Same)
        } else {
            Ok(LineColumn::Number(self.lines[offset]))
        }
    }

    /// The listing line of the instruction at `offset`.
    pub open spec fn listing_line(self, offset: int) -> Result<ListingLine, InternalError> {
        match self.decode(offset) {
            Err(e) => Err(e),
            Ok(instruction) => match self.line_column(offset) {
                Err(e) => Err(e),
                Ok(line) => Ok(ListingLine { offset: offset as usize, line, instruction }),
            },
        }
    }

    /// The listing lines of the instructions from `offset` to the end of the
    /// stream, or the first error that decoding them meets.
    pub open spec fn listing_from(self, offset: int) -> Result<Seq<ListingLine>, InternalError>
        decreases self.instructions.len() - offset,
    {
        if offset >= self.instructions.len() {
            Ok(Seq::empty())
        } else {
            match self.listing_line(offset) {
                Err(e) => Err(e),
                Ok(line) => match self.listing_from(offset + line.instruction.spec_width()) {
                    Err(e) => Err(e),
                    Ok(rest) => Ok(seq![line] + rest),
                },
            }
        }
    }

    /// The listing lines of the whole chunk.
    pub open spec fn listing(self) -> Result<Seq<ListingLine>, InternalError> {
        self.listing_from(0)
    }
}

/// The header of the listing of a chunk called `name`.
pub fn header(name: &str) -> (s: String)
    ensures
        s@ == header_text(name@),
{
    let mut s = String::new();
    s.append("== ");
    s.append(name);
    s.append(" ==");
    s
}

impl Chunk {
    /// Disassembles the instruction at `offset`: returns its listing line
    /// and the offset of the instruction after it.
    pub fn disassemble_instruction(&self, offset: usize) -> (r: Result<
        (ListingLine, usize),
        InternalError,
    >)
        ensures
            match self@.listing_line(offset as int) {
                Ok(line) => r == Ok::<(ListingLine, usize), InternalError>(
                    (line, line.next_offset() as usize),
                ) && line.next_offset() <= self@.instructions.len(),
                Err(e) => r == Err::<(ListingLine, usize), InternalError>(e),
            },
    {
        let instruction = match self.decode(offset) {
            Ok(instruction) => instruction,
            Err(e) => {
                return Err(e);
            },
        };
        let here = match self.line_at(offset) {
            Ok(here) => here,
            Err(e) => {
                return Err(e);
            },
        };
        let mut line = LineColumn::Number(here);
        if offset > 0 {
            match self.line_at(offset - 1) {
                Ok(before) => {
                    if before == here {
                        line = LineColumn::Same;
                    }
                },
                Err(_) => {},
            }
        }
        proof {
            self.lengths_fit();
        }
        Ok((ListingLine { offset, line, instruction }, offset + instruction.width()))
    }

    /// Disassembles the whole chunk under the title `name`.
    pub fn disassemble(&self, name: &str) -> (r: Result<Listing, InternalError>)
        ensures
            match self@.listing() {
                Ok(lines) => r is Ok && r->Ok_0.header@ == header_text(name@) && r->Ok_0.lines@
                    == lines,
                Err(e) => r == Err::<Listing, InternalError>(e),
            },
    {
        let mut lines: Vec<ListingLine> = Vec::new();
        let mut offset: usize = 0;
        while offset < self.len()
            invariant
                match self@.listing_from(offset as int) {
                    Ok(rest) => self@.listing() == Ok::<Seq<ListingLine>, InternalError>(
                        lines@ + rest,
                    ),
                    Err(e) => self@.listing() == Err::<Seq<ListingLine>, InternalError>(e),
                },
            decreases self@.instructions.len() - offset,
        {
            match self.disassemble_instruction(offset) {
                Err(e) => {
                    return Err(e);
                },
                Ok((line, next)) => {
                    proof {
                        let rest = self@.listing_from(next as int);
                        if rest is Ok {
                            assert(lines@.push(line) + rest->Ok_0 =~= lines@ + (seq![line]
                                + rest->Ok_0));
                        }
                    }
                    lines.push(line);
                    offset = next;
                },
            }
        }
        Ok(Listing { header: header(name), lines })
    }
}

} // verus!
