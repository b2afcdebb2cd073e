//! What holds of every chunk and of every run of the machine.

use crate::chunk::ChunkView;
use crate::disassembler::{LineColumn, ListingLine};
use crate::error::{InternalError, ProducerError};
use crate::instruction::Instruction;
use crate::opcode::OpCode;
use crate::text::{decimal, zero_padded};
use crate::value::{Arithmetic, Value};
use crate::vm::{Action, Halt, InterpretResult, MachineState, Run, Snapshot};
use vstd::prelude::*;

verus! {

/// Every opcode has a tag of its own: decoding the tag of an opcode gives
/// the opcode back, and a byte that decodes is the tag of what it decodes
/// to.
pub proof fn tags_round_trip(op: OpCode, byte: u8)
    ensures
        OpCode::from_tag(op.tag()) == Some(op),
        OpCode::from_tag(byte) == Some(op) ==> op.tag() == byte,
        OpCode::from_tag(byte) is Some <==> byte < 7,
{
}

/// A chunk starts out well-formed and stays so, whatever is appended to it.
pub proof fn appending_keeps_well_formed(chunk: ChunkView, byte: u8, line: usize, value: Value)
    requires
        chunk.wf(),
    ensures
        ChunkView::empty().wf(),
        chunk.with_byte(byte, line).wf(),
        chunk.append_constant(value).0.wf(),
{
}

/// A chunk only grows: appending leaves what was there where it was.
pub proof fn appending_only_grows(chunk: ChunkView, byte: u8, line: usize, value: Value)
    ensures
        chunk.grows_to(chunk),
        chunk.grows_to(chunk.with_byte(byte, line)),
        chunk.grows_to(chunk.append_constant(value).0),
{
}

/// Growth adds up over any number of appends.
pub proof fn growth_is_transitive(first: ChunkView, second: ChunkView, third: ChunkView)
    requires
        first.grows_to(second),
        second.grows_to(third),
    ensures
        first.grows_to(third),
{
}

/// The indices of constants count up from zero and stay valid.
///
/// A constant `a` is appended to `chunk`; the chunk grows on to `later`,
/// and a constant `b` is appended to that. Then `a` got the number of
/// constants that `chunk` held, which is zero for an empty chunk; `b` got a
/// greater index, the next one if no constant came in between; and after
/// both appends each index still gives its constant.
pub proof fn constant_indices_count_up_and_stay(
    chunk: ChunkView,
    a: Value,
    later: ChunkView,
    b: Value,
)
    requires
        chunk.has_room(),
        chunk.append_constant(a).0.grows_to(later),
        later.has_room(),
    ensures
        chunk.append_constant(a).1 == Ok::<u8, ProducerError>(chunk.constants.len() as u8),
        ChunkView::empty().append_constant(a).1 == Ok::<u8, ProducerError>(0),
        later.append_constant(b).1 is Ok,
        chunk.append_constant(a).1->Ok_0 < later.append_constant(b).1->Ok_0,
        later.constants.len() == chunk.constants.len() + 1 ==> later.append_constant(b).1->Ok_0
            == chunk.append_constant(a).1->Ok_0 + 1,
        later.append_constant(b).0.constants[chunk.append_constant(a).1->Ok_0 as int] == a,
        later.append_constant(b).0.constants[later.append_constant(b).1->Ok_0 as int] == b,
{
    let first = chunk.append_constant(a).0;
    assert(first.constants[chunk.constants.len() as int] == a);
}

/// In a well-formed chunk, an instruction that decodes can be listed.
pub proof fn decodable_is_listable(chunk: ChunkView, offset: int)
    requires
        chunk.wf(),
        chunk.decode(offset) is Ok,
    ensures
        chunk.listing_line(offset) is Ok,
        chunk.listing_line(offset)->Ok_0.instruction == chunk.decode(offset)->Ok_0,
{
}

/// Every opcode has its fixed effect on the stack, which changes at its
/// top only: once the instruction is done, and the result of an operation
/// pushed, the stack has lost what the opcode pops and gained what it
/// pushes, and whatever lay below the operands lies there as before.
pub proof fn stack_effect_is_fixed(chunk: ChunkView, state: MachineState, result: Value)
    requires
        chunk.decode(state.ip) is Ok,
        state.stack.len() >= chunk.decode(state.ip)->Ok_0.spec_opcode().pops(),
    ensures
        ({
            let op = chunk.decode(state.ip)->Ok_0.spec_opcode();
            let d = chunk.dispatch(state);
            let done = if d.action is Compute {
                d.state.push(result)
            } else {
                d.state
            };
            let kept = state.stack.len() - op.pops();
            &&& done.stack.len() == kept + op.pushes()
            &&& done.stack.take(kept) == state.stack.take(kept)
            &&& done.ip == state.ip + 1 + op.operand_bytes()
            &&& d.action is Halt <==> op == OpCode::Return
        }),
{
    let op = chunk.decode(state.ip)->Ok_0.spec_opcode();
    let d = chunk.dispatch(state);
    let done = if d.action is Compute {
        d.state.push(result)
    } else {
        d.state
    };
    let kept = state.stack.len() - op.pops();
    assert(done.stack.take(kept) =~= state.stack.take(kept));
}

/// The instruction pointer only advances, and a machine that starts within
/// the stream never leaves it: a run ends at or behind the offset where it
/// started, and no further than the end of the stream.
pub proof fn instruction_pointer_only_advances<F: Fn(Arithmetic) -> Value>(
    chunk: ChunkView,
    tracing: bool,
    alu: F,
    state: MachineState,
    trace: Seq<Snapshot>,
    end: Run,
)
    requires
        chunk.runs_to(tracing, alu, state, trace, end),
    ensures
        state.ip <= chunk.dispatch(state).state.ip,
        state.ip <= end.state.ip,
        state.ip <= chunk.instructions.len() ==> end.state.ip <= chunk.instructions.len(),
    decreases chunk.instructions.len() - state.ip,
{
    let shown = chunk.listing_line(state.ip);
    if !(tracing && shown is Err) {
        let seen = if tracing {
            trace.push(Snapshot { stack: state.stack, line: shown->Ok_0 })
        } else {
            trace
        };
        let d = chunk.dispatch(state);
        match d.action {
            Action::Halt(_) => {},
            Action::Continue => {
                instruction_pointer_only_advances(chunk, tracing, alu, d.state, seen, end);
            },
            Action::Compute(operation) => {
                let v = choose|v: Value| #[trigger]
                    alu.ensures((operation,), v) && chunk.runs_to(
                        tracing,
                        alu,
                        d.state.push(v),
                        seen,
                        end,
                    );
                instruction_pointer_only_advances(
                    chunk,
                    tracing,
                    alu,
                    d.state.push(v),
                    seen,
                    end,
                );
            },
        }
    }
}

/// Taking a value from a stack that holds too few ends the run in a
/// runtime error: wherever the machine stands, if the next instruction
/// pops more than the stack holds, the machine stops there, it reports no
/// value, and the status is `RuntimeError`.
pub proof fn underflow_is_a_runtime_error<F: Fn(Arithmetic) -> Value>(
    chunk: ChunkView,
    tracing: bool,
    alu: F,
    state: MachineState,
    trace: Seq<Snapshot>,
    end: Run,
)
    requires
        chunk.wf(),
        chunk.decode(state.ip) is Ok,
        state.stack.len() < chunk.decode(state.ip)->Ok_0.spec_opcode().pops(),
        chunk.runs_to(tracing, alu, state, trace, end),
    ensures
        end.halt == Halt::StackUnderflow,
        end.halt.spec_status() == Ok::<InterpretResult, InternalError>(
            InterpretResult::RuntimeError,
        ),
        end.state.stack.len() == 0,
{
    decodable_is_listable(chunk, state.ip);
}

/// A program of pushes and a `Return` reports the constant that was pushed
/// last.
///
/// The stream of `chunk` is `count` instructions that push a constant, at
/// least one, and then a `Return`. Whatever stack the machine starts with,
/// every run from the start of the chunk ends by returning the constant of
/// the last push, with the instruction pointer behind the `Return`.
pub proof fn pushes_then_return_reports_last<F: Fn(Arithmetic) -> Value>(
    chunk: ChunkView,
    count: int,
    tracing: bool,
    alu: F,
    stack: Seq<Value>,
    trace: Seq<Snapshot>,
    end: Run,
)
    requires
        chunk.wf(),
        count >= 1,
        is_pushes_then_return(chunk, count),
        chunk.runs_to(tracing, alu, MachineState { ip: 0, stack }, trace, end),
    ensures
        end.halt == Halt::Returned(chunk.constants[chunk.instructions[2 * count - 1] as int]),
        end.state.ip == chunk.instructions.len(),
        end.state.stack.len() == stack.len() + count - 1,
{
    pushes_then_return_from(chunk, count, 0, tracing, alu, stack, trace, end);
}

/// Whether the stream of `chunk` is `count` pushes of constants that the
/// pool holds, followed by one `Return`.
pub open spec fn is_pushes_then_return(chunk: ChunkView, count: int) -> bool {
    &&& count >= 0
    &&& chunk.instructions.len() == 2 * count + 1
    &&& forall|k: int|
        0 <= k < count ==> #[trigger] chunk.instructions[2 * k] == OpCode::Constant.tag()
            && chunk.instructions[2 * k + 1] < chunk.constants.len()
    &&& chunk.instructions[2 * count] == OpCode::Return.tag()
}

proof fn pushes_then_return_from<F: Fn(Arithmetic) -> Value>(
    chunk: ChunkView,
    count: int,
    done: int,
    tracing: bool,
    alu: F,
    stack: Seq<Value>,
    trace: Seq<Snapshot>,
    end: Run,
)
    requires
        chunk.wf(),
        is_pushes_then_return(chunk, count),
        0 <= done <= count,
        done == 0 ==> count >= 1,
        done > 0 ==> stack.len() > 0 && stack.last() == chunk.constants[chunk.instructions[2
            * done - 1] as int],
        chunk.runs_to(tracing, alu, MachineState { ip: 2 * done, stack }, trace, end),
    ensures
        end.halt == Halt::Returned(chunk.constants[chunk.instructions[2 * count - 1] as int]),
        end.state.ip == chunk.instructions.len(),
        end.state.stack.len() == stack.len() + (count - done) - 1,
    decreases count - done,
{
    let state = MachineState { ip: 2 * done, stack };
    if done < count {
        decodable_is_listable(chunk, state.ip);
        let d = chunk.dispatch(state);
        let seen = if tracing {
            trace.push(Snapshot { stack, line: chunk.listing_line(state.ip)->Ok_0 })
        } else {
            trace
        };
        pushes_then_return_from(chunk, count, done + 1, tracing, alu, d.state.stack, seen, end);
    } else {
        decodable_is_listable(chunk, state.ip);
    }
}

/// The operation that a two-operand opcode asks for.
pub open spec fn operation_of(op: OpCode, lhs: Value, rhs: Value) -> Arithmetic
    recommends
        op.pops() == 2,
{
    match op {
        OpCode::Subtract => Arithmetic::Subtract { lhs, rhs },
        OpCode::Multiply => Arithmetic::Multiply { lhs, rhs },
        OpCode::Divide => Arithmetic::Divide { lhs, rhs },
        _ => Arithmetic::Add { lhs, rhs },
    }
}

/// The operand that was pushed first is the left-hand side.
///
/// The stream of `chunk` pushes the constant `a`, pushes the constant `b`,
/// applies the two-operand opcode `op` and returns. Then every run from
/// the start of the chunk returns a value that `alu` gives for `op` with
/// `a` on the left and `b` on the right: `a - b` for `Subtract`, `a / b`
/// for `Divide`.
pub proof fn first_pushed_is_left_operand<F: Fn(Arithmetic) -> Value>(
    chunk: ChunkView,
    op: OpCode,
    tracing: bool,
    alu: F,
    stack: Seq<Value>,
    trace: Seq<Snapshot>,
    end: Run,
)
    requires
        chunk.wf(),
        op.pops() == 2,
        chunk.instructions.len() == 6,
        chunk.instructions[0] == OpCode::Constant.tag(),
        chunk.instructions[1] < chunk.constants.len(),
        chunk.instructions[2] == OpCode::Constant.tag(),
        chunk.instructions[3] < chunk.constants.len(),
        chunk.instructions[4] == op.tag(),
        chunk.instructions[5] == OpCode::Return.tag(),
        chunk.runs_to(tracing, alu, MachineState { ip: 0, stack }, trace, end),
    ensures
        end.halt is Returned,
        alu.ensures(
            (
                operation_of(
                    op,
                    chunk.constants[chunk.instructions[1] as int],
                    chunk.constants[chunk.instructions[3] as int],
                ),
            ),
            end.halt->Returned_0,
        ),
        end.state.stack == stack,
        end.state.ip == 6,
{
    let a = chunk.constants[chunk.instructions[1] as int];
    let b = chunk.constants[chunk.instructions[3] as int];
    let s0 = MachineState { ip: 0, stack };
    decodable_is_listable(chunk, 0);
    let d0 = chunk.dispatch(s0);
    let t1 = if tracing {
        trace.push(Snapshot { stack: s0.stack, line: chunk.listing_line(0)->Ok_0 })
    } else {
        trace
    };
    assert(chunk.runs_to(tracing, alu, d0.state, t1, end));
    decodable_is_listable(chunk, 2);
    let d1 = chunk.dispatch(d0.state);
    let t2 = if tracing {
        trace.push(Snapshot { stack: s0.stack, line: chunk.listing_line(0)->Ok_0 }).push(
            Snapshot { stack: d0.state.stack, line: chunk.listing_line(2)->Ok_0 },
        )
    } else {
        trace
    };
    assert(chunk.runs_to(tracing, alu, d1.state, t2, end));
    decodable_is_listable(chunk, 4);
    let d2 = chunk.dispatch(d1.state);
    let t3 = if tracing {
        t2.push(Snapshot { stack: d1.state.stack, line: chunk.listing_line(4)->Ok_0 })
    } else {
        trace
    };
    assert(d2.action == Action::Compute(operation_of(op, a, b)));
    let v = choose|v: Value| #[trigger]
        alu.ensures((operation_of(op, a, b),), v) && chunk.runs_to(
            tracing,
            alu,
            d2.state.push(v),
            t3,
            end,
        );
    decodable_is_listable(chunk, 5);
    let d3 = chunk.dispatch(d2.state.push(v));
    assert(d3.action == Action::Halt(Halt::Returned(v)));
}

/// A numeral of up to four digits fills the four columns that a listing
/// gives it; a longer one is shown whole.
pub proof fn numbers_fill_four_columns(n: nat)
    ensures
        n < 10000 ==> zero_padded(n, 4).len() == 4,
        n >= 1000 ==> zero_padded(n, 4) == decimal(n),
        zero_padded(n, 4).len() >= 4,
{
    reveal_with_fuel(decimal, 4);
    if n >= 10000 {
        long_numerals(n);
    }
}

proof fn long_numerals(n: nat)
    requires
        n >= 1000,
    ensures
        decimal(n).len() >= 4,
    decreases n,
{
    reveal_with_fuel(decimal, 4);
    if n >= 10000 {
        long_numerals(n / 10);
    }
}

/// One push and a `Return` disassemble to two lines.
///
/// The stream of `chunk` is a push of the constant at `index` and a
/// `Return`. Its listing has two lines: the first, at offset 0, shows the
/// index and the value of the constant, and the next instruction starts at
/// offset 2; the second, at offset 2, shows `OP_RETURN`, and the stream
/// ends behind it at offset 3.
pub proof fn push_and_return_list_as_two_lines(
    chunk: ChunkView,
    index: u8,
    value_text: Seq<char>,
)
    requires
        chunk.wf(),
        chunk.instructions == seq![OpCode::Constant.tag(), index, OpCode::Return.tag()],
        index < chunk.constants.len(),
    ensures
        chunk.listing() is Ok,
        chunk.listing()->Ok_0.len() == 2,
        chunk.listing()->Ok_0[0] == (ListingLine {
            offset: 0,
            line: LineColumn::Number(chunk.lines[0]),
            instruction: Instruction::Constant { index, value: chunk.constants[index as int] },
        }),
        chunk.listing()->Ok_0[0].next_offset() == 2,
        chunk.listing()->Ok_0[0].text(value_text) == "0000 "@ + zero_padded(
            chunk.lines[0] as nat,
            4,
        ) + " OP_CONSTANT "@ + zero_padded(index as nat, 4) + " '"@ + value_text + "'"@,
        chunk.listing()->Ok_0[1] == (ListingLine {
            offset: 2,
            line: if chunk.lines[2] == chunk.lines[1] {
                LineColumn::Same
            } else {
                LineColumn::Number(chunk.lines[2])
            },
            instruction: Instruction::Return,
        }),
        chunk.listing()->Ok_0[1].next_offset() == 3,
        chunk.listing()->Ok_0[1].text(value_text) == "0002 "@
            + chunk.listing()->Ok_0[1].line.text() + "OP_RETURN"@,
{
    reveal_with_fuel(ChunkView::listing_from, 3);
    reveal_with_fuel(decimal, 2);
    reveal_strlit("0000 ");
    reveal_strlit("0002 ");
    reveal_strlit(" ");
    reveal_strlit("OP_CONSTANT");
    reveal_strlit(" OP_CONSTANT ");
    let first = chunk.listing_line(0)->Ok_0;
    let second = chunk.listing_line(2)->Ok_0;
    assert(chunk.listing_from(2) == Ok::<Seq<ListingLine>, InternalError>(
        seq![second] + Seq::empty(),
    ));
    assert(first.text(value_text) =~= "0000 "@ + zero_padded(chunk.lines[0] as nat, 4)
        + " OP_CONSTANT "@ + zero_padded(index as nat, 4) + " '"@ + value_text + "'"@);
}

/// A listing walks the stream without a gap: it starts at the offset it
/// was asked for, every line starts where the line before it ends, each is
/// the listing line of its own offset, and the last ends where the stream
/// ends.
pub proof fn listing_follows_the_stream(chunk: ChunkView, offset: int)
    requires
        0 <= offset <= chunk.instructions.len() <= usize::MAX,
        chunk.listing_from(offset) is Ok,
    ensures
        ({
            let lines = chunk.listing_from(offset)->Ok_0;
            &&& lines.len() == 0 <==> offset == chunk.instructions.len()
            &&& lines.len() > 0 ==> lines[0].offset == offset && lines.last().next_offset()
                == chunk.instructions.len()
            &&& forall|i: int|
                0 <= i < lines.len() - 1 ==> (#[trigger] lines[i]).next_offset() == lines[i
                    + 1].offset
            &&& forall|i: int|
                0 <= i < lines.len() ==> chunk.listing_line((#[trigger] lines[i]).offset as int)
                    == Ok::<ListingLine, InternalError>(lines[i])
        }),
    decreases chunk.instructions.len() - offset,
{
    if offset < chunk.instructions.len() {
        let line = chunk.listing_line(offset)->Ok_0;
        let next = offset + line.instruction.spec_width();
        listing_follows_the_stream(chunk, next);
        let rest = chunk.listing_from(next)->Ok_0;
        let lines = chunk.listing_from(offset)->Ok_0;
        assert(lines == seq![line] + rest);
        assert forall|i: int| 0 < i < lines.len() implies #[trigger] lines[i] == rest[i - 1] by {}
    }
}

/// An instruction on the line of the one before it shows the mark in place
/// of the number.
///
/// Two instructions follow one another at `first` and `second`, and every
/// byte of the first stems from one source line. Then the second shows the
/// mark if it stems from that line too, and its own line number if not.
/// The instruction at the start of the stream always shows its number.
pub proof fn repeated_line_shows_the_mark(chunk: ChunkView, first: int, second: int)
    requires
        chunk.wf(),
        chunk.listing_line(first) is Ok,
        second == first + chunk.listing_line(first)->Ok_0.instruction.spec_width(),
        chunk.listing_line(second) is Ok,
        forall|i: int| first <= i < second ==> chunk.lines[i] == chunk.lines[first],
    ensures
        chunk.lines[second] == chunk.lines[first] ==> chunk.listing_line(second)->Ok_0.line
            == LineColumn::Same,
        chunk.lines[second] != chunk.lines[first] ==> chunk.listing_line(second)->Ok_0.line
            == LineColumn::Number(chunk.lines[second]),
        chunk.listing_line(0) is Ok ==> chunk.listing_line(0)->Ok_0.line == LineColumn::Number(
            chunk.lines[0],
        ),
{
}

/// A run only adds to the trace, and a machine that does not trace leaves
/// it as it is.
pub proof fn trace_only_grows<F: Fn(Arithmetic) -> Value>(
    chunk: ChunkView,
    tracing: bool,
    alu: F,
    state: MachineState,
    trace: Seq<Snapshot>,
    end: Run,
)
    requires
        chunk.runs_to(tracing, alu, state, trace, end),
    ensures
        trace.is_prefix_of(end.trace),
        !tracing ==> end.trace == trace,
    decreases chunk.instructions.len() - state.ip,
{
    let shown = chunk.listing_line(state.ip);
    if !(tracing && shown is Err) {
        let seen = if tracing {
            trace.push(Snapshot { stack: state.stack, line: shown->Ok_0 })
        } else {
            trace
        };
        let d = chunk.dispatch(state);
        match d.action {
            Action::Halt(_) => {},
            Action::Continue => {
                trace_only_grows(chunk, tracing, alu, d.state, seen, end);
            },
            Action::Compute(operation) => {
                let v = choose|v: Value| #[trigger]
                    alu.ensures((operation,), v) && chunk.runs_to(
                        tracing,
                        alu,
                        d.state.push(v),
                        seen,
                        end,
                    );
                trace_only_grows(chunk, tracing, alu, d.state.push(v), seen, end);
            },
        }
    }
}

/// Tracing changes nothing but the trace: where a tracing machine can end,
/// a machine that does not trace can end too, for the same reason and in
/// the same state, its trace untouched.
pub proof fn traced_run_has_its_silent_twin<F: Fn(Arithmetic) -> Value>(
    chunk: ChunkView,
    alu: F,
    state: MachineState,
    trace: Seq<Snapshot>,
    end: Run,
    silent: Seq<Snapshot>,
)
    requires
        chunk.wf(),
        chunk.runs_to(true, alu, state, trace, end),
    ensures
        chunk.runs_to(
            false,
            alu,
            state,
            silent,
            Run { halt: end.halt, state: end.state, trace: silent },
        ),
    decreases chunk.instructions.len() - state.ip,
{
    let twin = Run { halt: end.halt, state: end.state, trace: silent };
    if chunk.decode(state.ip) is Ok {
        decodable_is_listable(chunk, state.ip);
        let seen = trace.push(
            Snapshot { stack: state.stack, line: chunk.listing_line(state.ip)->Ok_0 },
        );
        let d = chunk.dispatch(state);
        match d.action {
            Action::Halt(_) => {},
            Action::Continue => {
                traced_run_has_its_silent_twin(chunk, alu, d.state, seen, end, silent);
            },
            Action::Compute(operation) => {
                let v = choose|v: Value| #[trigger]
                    alu.ensures((operation,), v) && chunk.runs_to(
                        true,
                        alu,
                        d.state.push(v),
                        seen,
                        end,
                    );
                traced_run_has_its_silent_twin(chunk, alu, d.state.push(v), seen, end, silent);
                assert(alu.ensures((operation,), v) && chunk.runs_to(
                    false,
                    alu,
                    d.state.push(v),
                    silent,
                    twin,
                ));
            },
        }
    }
}

/// And the other way round: where a machine that does not trace can end, a
/// tracing machine can end too, for the same reason and in the same state.
/// The trace that it then holds is returned.
pub proof fn silent_run_has_its_traced_twin<F: Fn(Arithmetic) -> Value>(
    chunk: ChunkView,
    alu: F,
    state: MachineState,
    silent: Seq<Snapshot>,
    end: Run,
    trace: Seq<Snapshot>,
) -> (traced: Seq<Snapshot>)
    requires
        chunk.wf(),
        chunk.runs_to(false, alu, state, silent, end),
    ensures
        chunk.runs_to(
            true,
            alu,
            state,
            trace,
            Run { halt: end.halt, state: end.state, trace: traced },
        ),
    decreases chunk.instructions.len() - state.ip,
{
    if chunk.decode(state.ip) is Ok {
        decodable_is_listable(chunk, state.ip);
        let seen = trace.push(
            Snapshot { stack: state.stack, line: chunk.listing_line(state.ip)->Ok_0 },
        );
        let d = chunk.dispatch(state);
        match d.action {
            Action::Halt(_) => seen,
            Action::Continue => silent_run_has_its_traced_twin(
                chunk,
                alu,
                d.state,
                silent,
                end,
                seen,
            ),
            Action::Compute(operation) => {
                let v = choose|v: Value| #[trigger]
                    alu.ensures((operation,), v) && chunk.runs_to(
                        false,
                        alu,
                        d.state.push(v),
                        silent,
                        end,
                    );
                let traced = silent_run_has_its_traced_twin(
                    chunk,
                    alu,
                    d.state.push(v),
                    silent,
                    end,
                    seen,
                );
                assert(alu.ensures((operation,), v) && chunk.runs_to(
                    true,
                    alu,
                    d.state.push(v),
                    seen,
                    Run { halt: end.halt, state: end.state, trace: traced },
                ));
                traced
            },
        }
    } else {
        trace
    }
}

/// A run goes on as its first instruction says: it ends there if the
/// instruction stops the machine, and is a run from the next state if not,
/// with a value that `alu` may return on the stack after an operation. A
/// tracing machine first adds the instruction to its trace, and stops where
/// it cannot list it.
pub proof fn run_unfolds<F: Fn(Arithmetic) -> Value>(
    chunk: ChunkView,
    tracing: bool,
    alu: F,
    state: MachineState,
    trace: Seq<Snapshot>,
    end: Run,
)
    requires
        chunk.runs_to(tracing, alu, state, trace, end),
    ensures
        ({
            let shown = chunk.listing_line(state.ip);
            let seen = if tracing {
                trace.push(Snapshot { stack: state.stack, line: shown->Ok_0 })
            } else {
                trace
            };
            let d = chunk.dispatch(state);
            if tracing && shown is Err {
                end == (Run { halt: Halt::Fault(shown->Err_0), state, trace })
            } else {
                match d.action {
                    Action::Halt(halt) => end == (Run { halt, state: d.state, trace: seen }),
                    Action::Continue => chunk.runs_to(tracing, alu, d.state, seen, end),
                    Action::Compute(operation) => exists|v: Value| #[trigger]
                        alu.ensures((operation,), v) && chunk.runs_to(
                            tracing,
                            alu,
                            d.state.push(v),
                            seen,
                            end,
                        ),
                }
            }
        }),
{
}

/// The arithmetic decides the run: where `alu` can only return what
/// `arithmetic` says, the machine can only end where `ChunkView::run`
/// says.
pub proof fn arithmetic_decides_the_run<F: Fn(Arithmetic) -> Value>(
    chunk: ChunkView,
    tracing: bool,
    alu: F,
    arithmetic: spec_fn(Arithmetic) -> Value,
    state: MachineState,
    trace: Seq<Snapshot>,
    end: Run,
)
    requires
        forall|operation: Arithmetic, v: Value| #[trigger]
            alu.ensures((operation,), v) ==> v == arithmetic(operation),
        chunk.runs_to(tracing, alu, state, trace, end),
    ensures
        end == chunk.run(tracing, arithmetic, state, trace),
    decreases chunk.instructions.len() - state.ip,
{
    let shown = chunk.listing_line(state.ip);
    if !(tracing && shown is Err) {
        let seen = if tracing {
            trace.push(Snapshot { stack: state.stack, line: shown->Ok_0 })
        } else {
            trace
        };
        let d = chunk.dispatch(state);
        match d.action {
            Action::Halt(_) => {},
            Action::Continue => {
                arithmetic_decides_the_run(chunk, tracing, alu, arithmetic, d.state, seen, end);
            },
            Action::Compute(operation) => {
                let v = choose|v: Value| #[trigger]
                    alu.ensures((operation,), v) && chunk.runs_to(
                        tracing,
                        alu,
                        d.state.push(v),
                        seen,
                        end,
                    );
                arithmetic_decides_the_run(
                    chunk,
                    tracing,
                    alu,
                    arithmetic,
                    d.state.push(v),
                    seen,
                    end,
                );
            },
        }
    }
}

/// And where `alu` can return what `arithmetic` says, for every operation,
/// the machine can end where `ChunkView::run` says.
pub proof fn the_run_is_possible<F: Fn(Arithmetic) -> Value>(
    chunk: ChunkView,
    tracing: bool,
    alu: F,
    arithmetic: spec_fn(Arithmetic) -> Value,
    state: MachineState,
    trace: Seq<Snapshot>,
)
    requires
        forall|operation: Arithmetic| #[trigger] alu.ensures((operation,), arithmetic(operation)),
    ensures
        chunk.runs_to(tracing, alu, state, trace, chunk.run(tracing, arithmetic, state, trace)),
    decreases chunk.instructions.len() - state.ip,
{
    let shown = chunk.listing_line(state.ip);
    let end = chunk.run(tracing, arithmetic, state, trace);
    if !(tracing && shown is Err) {
        let seen = if tracing {
            trace.push(Snapshot { stack: state.stack, line: shown->Ok_0 })
        } else {
            trace
        };
        let d = chunk.dispatch(state);
        match d.action {
            Action::Halt(_) => {},
            Action::Continue => {
                the_run_is_possible(chunk, tracing, alu, arithmetic, d.state, seen);
            },
            Action::Compute(operation) => {
                let v = arithmetic(operation);
                the_run_is_possible(chunk, tracing, alu, arithmetic, d.state.push(v), seen);
                assert(alu.ensures((operation,), v) && chunk.runs_to(
                    tracing,
                    alu,
                    d.state.push(v),
                    seen,
                    end,
                ));
            },
        }
    }
}

} // verus!
