use crate::chunk::{Chunk, ChunkView};
use crate::disassembler::ListingLine;
use crate::error::InternalError;
use crate::instruction::{decoded_within, Instruction};
use crate::value::{Arithmetic, Value};
use vstd::prelude::*;

verus! {

/// How an interpretation ended, as a status.
#[derive(Clone, Copy, Debug, PartialEq, Eq, Structural)]
pub enum InterpretResult {
    /// The program returned a value.
    Success,
    /// The program could not be compiled. The machine takes finished chunks
    /// and never reports this itself.
    CompileError,
    /// The program took a value from an empty stack.
    RuntimeError,
}

/// Why the machine stopped.
#[derive(Clone, Copy, Debug, PartialEq, Eq, Structural)]
pub enum Halt {
    /// A `Return` popped this value: it is the program's result.
    Returned(Value),
    /// An operation needed more values than the stack held.
    StackUnderflow,
    /// The chunk could not be decoded.
    Fault(InternalError),
}

/// What the machine asks of its caller after it has dispatched one
/// instruction.
#[derive(Clone, Copy, Debug, PartialEq, Eq, Structural)]
pub enum Action {
    /// Nothing: the instruction is done.
    Continue,
    /// Carry out the operation and push what it yields. The operands have
    /// left the stack.
    Compute(Arithmetic),
    /// Stop.
    Halt(Halt),
}

/// The part of the machine that changes while it runs.
pub struct MachineState {
    /// The offset of the next instruction.
    pub ip: int,
    /// The operand stack, its top at the end.
    pub stack: Seq<Value>,
}

/// What dispatching one instruction comes to.
pub struct Dispatch {
    pub action: Action,
    pub state: MachineState,
}

/// An entry of a trace as a value: the stack before an instruction, and the
/// instruction.
pub struct Snapshot {
    pub stack: Seq<Value>,
    pub line: ListingLine,
}

/// An entry of a trace: the stack as it was before an instruction was
/// executed, and that instruction as the disassembler shows it.
#[derive(Clone, Debug)]
pub struct TraceEntry {
    pub stack: Vec<Value>,
    pub line: ListingLine,
}

/// The end of a run as a value.
pub struct Run {
    pub halt: Halt,
    pub state: MachineState,
    pub trace: Seq<Snapshot>,
}

/// What an interpretation hands back.
#[derive(Clone, Debug)]
pub struct Execution {
    /// Why the machine stopped.
    pub halt: Halt,
    /// One entry for every instruction that was executed, in order; empty
    /// unless the machine traces.
    pub trace: Vec<TraceEntry>,
}

impl View for TraceEntry {
    type V = Snapshot;

    open spec fn view(&self) -> Snapshot {
        Snapshot { stack: self.stack@, line: self.line }
    }
}

/// A trace as a sequence of values.
pub open spec fn trace_view(trace: Seq<TraceEntry>) -> Seq<Snapshot> {
    trace.map_values(|entry: TraceEntry| entry@)
}

impl Halt {
    /// The status of an interpretation that ended in this way.
    pub open spec fn spec_status(self) -> Result<InterpretResult, InternalError> {
        match self {
            Halt::Returned(_) => Ok(InterpretResult::Success),
            Halt::StackUnderflow => Ok(InterpretResult::RuntimeError),
            Halt::Fault(e) => Err(e),
        }
    }

    /// The status of an interpretation that ended in this way. A chunk that
    /// could not be decoded has none: its error is handed on.
    #[verifier::when_used_as_spec(spec_status)]
    pub fn status(self) -> (r: Result<InterpretResult, InternalError>)
        ensures
            r == self.spec_status(),
    {
        match self {
            Halt::Returned(_) => Ok(InterpretResult::Success),
            Halt::StackUnderflow => Ok(InterpretResult::RuntimeError),
            Halt::Fault(e) => Err(e),
        }
    }
}

impl MachineState {
    /// This state with `value` pushed.
    pub open spec fn push(self, value: Value) -> MachineState {
        MachineState { ip: self.ip, stack: self.stack.push(value) }
    }
}

impl Instruction {
    /// What the instruction does to a stack that holds as many values as it
    /// pops. The operands of an operation leave the stack; of two, the one
    /// below is the left-hand side.
    pub open spec fn effect(self, stack: Seq<Value>) -> (Action, Seq<Value>)
        recommends
            stack.len() >= self.spec_opcode().pops(),
    {
        let top = stack.len() - 1;
        match self {
            Instruction::Constant { value, .. } => (Action::Continue, stack.push(value)),
            Instruction::Return => (Action::Halt(Halt::Returned(stack[top])), stack.take(top)),
            Instruction::Negate => (
                Action::Compute(Arithmetic::Negate { operand: stack[top] }),
                stack.take(top),
            ),
            Instruction::Add => (
                Action::Compute(Arithmetic::Add { lhs: stack[top - 1], rhs: stack[top] }),
                stack.take(top - 1),
            ),
            Instruction::Subtract => (
                Action::Compute(Arithmetic::Subtract { lhs: stack[top - 1], rhs: stack[top] }),
                stack.take(top - 1),
            ),
            Instruction::Multiply => (
                Action::Compute(Arithmetic::Multiply { lhs: stack[top - 1], rhs: stack[top] }),
                stack.take(top - 1),
            ),
            Instruction::Divide => (
                Action::Compute(Arithmetic::Divide { lhs: stack[top - 1], rhs: stack[top] }),
                stack.take(top - 1),
            ),
        }
    }
}

impl ChunkView {
    /// Fetches the instruction at `state.ip` and executes it as far as the
    /// machine can by itself.
    ///
    /// An instruction that does not decode stops the machine where it is.
    /// Any other moves the instruction pointer past itself. Where the stack
    /// holds fewer values than the instruction pops, the machine stops and
    /// the stack is empty: the values that were there have been popped.
    pub open spec fn dispatch(self, state: MachineState) -> Dispatch {
        match self.decode(state.ip) {
            Err(e) => Dispatch { action: Action::Halt(Halt::Fault(e)), state },
            Ok(instruction) => {
                let ip = state.ip + instruction.spec_width();
                if state.stack.len() < instruction.spec_opcode().pops() {
                    Dispatch {
                        action: Action::Halt(Halt::StackUnderflow),
                        state: MachineState { ip, stack: Seq::empty() },
                    }
                } else {
                    let (action, stack) = instruction.effect(state.stack);
                    Dispatch { action, state: MachineState { ip, stack } }
                }
            },
        }
    }

    /// What one step makes of `before`, the arithmetic being done by `alu`:
    /// the state `after`, and `halt` if the machine stopped.
    pub open spec fn steps_to<F: Fn(Arithmetic) -> Value>(
        self,
        alu: F,
        before: MachineState,
        after: MachineState,
        halt: Option<Halt>,
    ) -> bool {
        let d = self.dispatch(before);
        match d.action {
            Action::Halt(h) => halt == Some(h) && after == d.state,
            Action::Continue => halt is None && after == d.state,
            Action::Compute(operation) => {
                &&& halt is None
                &&& after.stack.len() > 0
                &&& alu.ensures((operation,), after.stack.last())
                &&& after == d.state.push(after.stack.last())
            },
        }
    }

    /// Whether the machine, started in `state` with the trace `trace` behind
    /// it, can end in `end`.
    ///
    /// With `tracing` on, every instruction is disassembled before it is
    /// executed and enters the trace together with the stack; one that
    /// cannot be disassembled stops the machine. For an operation on values
    /// the machine goes on with whatever `alu` may return for it.
    pub open spec fn runs_to<F: Fn(Arithmetic) -> Value>(
        self,
        tracing: bool,
        alu: F,
        state: MachineState,
        trace: Seq<Snapshot>,
        end: Run,
    ) -> bool
        decreases self.instructions.len() - state.ip,
    {
        let shown = self.listing_line(state.ip);
        if tracing && shown is Err {
            end == (Run { halt: Halt::Fault(shown->Err_0), state, trace })
        } else {
            let seen = if tracing {
                trace.push(Snapshot { stack: state.stack, line: shown->Ok_0 })
            } else {
                trace
            };
            let d = self.dispatch(state);
            match d.action {
                Action::Halt(halt) => end == (Run { halt, state: d.state, trace: seen }),
                Action::Continue => self.runs_to(tracing, alu, d.state, seen, end),
                Action::Compute(operation) => exists|v: Value| #[trigger]
                    alu.ensures((operation,), v) && self.runs_to(
                        tracing,
                        alu,
                        d.state.push(v),
                        seen,
                        end,
                    ),
            }
        }
    }

    /// Where the machine ends when it is started in `state` with the trace
    /// `trace` behind it and every operation on values yields what
    /// `arithmetic` says.
    pub open spec fn run(
        self,
        tracing: bool,
        arithmetic: spec_fn(Arithmetic) -> Value,
        state: MachineState,
        trace: Seq<Snapshot>,
    ) -> Run
        decreases self.instructions.len() - state.ip,
    {
        let shown = self.listing_line(state.ip);
        if tracing && shown is Err {
            Run { halt: Halt::Fault(shown->Err_0), state, trace }
        } else {
            let seen = if tracing {
                trace.push(Snapshot { stack: state.stack, line: shown->Ok_0 })
            } else {
                trace
            };
            let d = self.dispatch(state);
            match d.action {
                Action::Halt(halt) => Run { halt, state: d.state, trace: seen },
                Action::Continue => self.run(tracing, arithmetic, d.state, seen),
                Action::Compute(operation) => self.run(
                    tracing,
                    arithmetic,
                    d.state.push(arithmetic(operation)),
                    seen,
                ),
            }
        }
    }
}

/// What a machine is: the chunk it has adopted, whether it traces, and its
/// changing state.
pub struct VmView {
    /// The chunk that the machine executes; none before the first
    /// interpretation.
    pub chunk: Option<ChunkView>,
    pub tracing: bool,
    pub state: MachineState,
}

/// The machine: an instruction pointer and an operand stack, at work on a
/// chunk that it borrows.
pub struct VM<'a> {
    chunk: Option<&'a Chunk>,
    ip: usize,
    stack: Vec<Value>,
    tracing: bool,
}

impl<'a> View for VM<'a> {
    type V = VmView;

    closed spec fn view(&self) -> VmView {
        VmView {
            chunk: match self.chunk {
                Some(chunk) => Some(chunk@),
                None => None,
            },
            tracing: self.tracing,
            state: MachineState { ip: self.ip as int, stack: self.stack@ },
        }
    }
}

impl<'a> VM<'a> {
    /// A machine without a chunk, its stack empty. With `tracing` on it
    /// records every instruction that it executes.
    pub fn create(tracing: bool) -> (vm: VM<'a>)
        ensures
            vm@ == (VmView {
                chunk: None,
                tracing,
                state: MachineState { ip: 0, stack: Seq::empty() },
            }),
    {
        VM { chunk: None, ip: 0, stack: Vec::new(), tracing }
    }

    /// The chunk that the machine has adopted, if it has adopted one.
    pub fn chunk(&self) -> (chunk: Option<&'a Chunk>)
        ensures
            chunk is Some <==> self@.chunk is Some,
            chunk is Some ==> chunk->0@ == self@.chunk->0,
    {
        self.chunk
    }

    /// The offset of the instruction that the machine executes next.
    pub fn ip(&self) -> (ip: usize)
        ensures
            ip == self@.state.ip,
    {
        self.ip
    }

    /// The operand stack, its top at the end.
    pub fn stack(&self) -> (stack: &Vec<Value>)
        ensures
            stack@ == self@.state.stack,
    {
        &self.stack
    }

    /// Whether the machine records what it executes.
    pub fn is_tracing(&self) -> (tracing: bool)
        ensures
            tracing == self@.tracing,
    {
        self.tracing
    }

    /// Pushes `v` onto the stack.
    pub fn push(&mut self, v: Value)
        ensures
            final(self)@ == (VmView { state: old(self)@.state.push(v), ..old(self)@ }),
    {
        self.stack.push(v);
    }

    /// Pops the top of the stack, if there is one.
    pub fn pop(&mut self) -> (top: Option<Value>)
        ensures
            old(self)@.state.stack.len() > 0 ==> top == Some(old(self)@.state.stack.last())
                && final(self)@ == (VmView {
                state: MachineState {
                    ip: old(self)@.state.ip,
                    stack: old(self)@.state.stack.drop_last(),
                },
                ..old(self)@
            }),
            old(self)@.state.stack.len() == 0 ==> top is None && final(self)@ == old(self)@,
    {
        self.stack.pop()
    }

    /// Pops the operands of an operation that takes two: first the
    /// right-hand side, then the left-hand side.
    fn pop_operands(&mut self) -> (operands: Option<(Value, Value)>)
        ensures
            final(self)@.chunk == old(self)@.chunk,
            final(self)@.tracing == old(self)@.tracing,
            final(self)@.state.ip == old(self)@.state.ip,
            old(self)@.state.stack.len() >= 2 ==> operands == Some(
                (
                    old(self)@.state.stack[old(self)@.state.stack.len() - 2],
                    old(self)@.state.stack.last(),
                ),
            ) && final(self)@.state.stack == old(self)@.state.stack.take(
                old(self)@.state.stack.len() - 2,
            ),
            old(self)@.state.stack.len() < 2 ==> operands is None && final(self)@.state.stack
                == Seq::<Value>::empty(),
    {
        let rhs = match self.pop() {
            Some(rhs) => rhs,
            None => {
                return None;
            },
        };
        let lhs = match self.pop() {
            Some(lhs) => lhs,
            None => {
                return None;
            },
        };
        Some((lhs, rhs))
    }

    /// Fetches the next instruction and executes it as far as the machine
    /// can by itself; says what is left to do.
    pub fn dispatch(&mut self) -> (action: Action)
        requires
            old(self)@.chunk is Some,
        ensures
            action == old(self)@.chunk->0.dispatch(old(self)@.state).action,
            final(self)@ == (VmView {
                state: old(self)@.chunk->0.dispatch(old(self)@.state).state,
                ..old(self)@
            }),
    {
        let chunk: &'a Chunk = self.chunk.unwrap();
        let instruction = match chunk.decode(self.ip) {
            Ok(instruction) => instruction,
            Err(e) => {
                return Action::Halt(Halt::Fault(e));
            },
        };
        proof {
            decoded_within(chunk@, self.ip as int);
            chunk.lengths_fit();
        }
        self.ip = self.ip + instruction.width();
        let action = match instruction {
            Instruction::Constant { value, .. } => {
                self.push(value);
                Action::Continue
            },
            Instruction::Return => match self.pop() {
                Some(value) => Action::Halt(Halt::Returned(value)),
                None => Action::Halt(Halt::StackUnderflow),
            },
            Instruction::Negate => match self.pop() {
                Some(operand) => Action::Compute(Arithmetic::Negate { operand }),
                None => Action::Halt(Halt::StackUnderflow),
            },
            Instruction::Add => match self.pop_operands() {
                Some((lhs, rhs)) => Action::Compute(Arithmetic::Add { lhs, rhs }),
                None => Action::Halt(Halt::StackUnderflow),
            },
            Instruction::Subtract => match self.pop_operands() {
                Some((lhs, rhs)) => Action::Compute(Arithmetic::Subtract { lhs, rhs }),
                None => Action::Halt(Halt::StackUnderflow),
            },
            Instruction::Multiply => match self.pop_operands() {
                Some((lhs, rhs)) => Action::Compute(Arithmetic::Multiply { lhs, rhs }),
                None => Action::Halt(Halt::StackUnderflow),
            },
            Instruction::Divide => match self.pop_operands() {
                Some((lhs, rhs)) => Action::Compute(Arithmetic::Divide { lhs, rhs }),
                None => Action::Halt(Halt::StackUnderflow),
            },
        };
        assert(self@.state.stack =~= chunk@.dispatch(old(self)@.state).state.stack);
        action
    }

    /// Executes one instruction. An operation on values is handed to `alu`,
    /// and what it returns is pushed. Says why the machine stopped, if it
    /// did.
    pub fn step<F: Fn(Arithmetic) -> Value>(&mut self, alu: &F) -> (halt: Option<Halt>)
        requires
            old(self)@.chunk is Some,
            forall|operation: Arithmetic| #[trigger] alu.requires((operation,)),
        ensures
            final(self)@.chunk == old(self)@.chunk,
            final(self)@.tracing == old(self)@.tracing,
            old(self)@.chunk->0.steps_to(*alu, old(self)@.state, final(self)@.state, halt),
    {
        match self.dispatch() {
            Action::Continue => None,
            Action::Halt(halt) => Some(halt),
            Action::Compute(operation) => {
                let value = alu(operation);
                self.push(value);
                None
            },
        }
    }

    /// Copies the stack as it is now.
    fn stack_snapshot(&self) -> (copy: Vec<Value>)
        ensures
            copy@ == self@.state.stack,
    {
        let mut copy: Vec<Value> = Vec::new();
        let mut i: usize = 0;
        while i < self.stack.len()
            invariant
                i <= self.stack.len(),
                copy@ == self.stack@.take(i as int),
            decreases self.stack.len() - i,
        {
            copy.push(self.stack[i]);
            i = i + 1;
        }
        copy
    }

    /// Runs the adopted chunk from where the machine stands until a
    /// `Return`, an underflow of the stack or a fault stops it. Operations
    /// on values are handed to `alu`.
    pub fn run<F: Fn(Arithmetic) -> Value>(&mut self, alu: &F) -> (r: Execution)
        requires
            old(self)@.chunk is Some,
            forall|operation: Arithmetic| #[trigger] alu.requires((operation,)),
        ensures
            final(self)@.chunk == old(self)@.chunk,
            final(self)@.tracing == old(self)@.tracing,
            old(self)@.chunk->0.runs_to(
                old(self)@.tracing,
                *alu,
                old(self)@.state,
                Seq::empty(),
                Run { halt: r.halt, state: final(self)@.state, trace: trace_view(r.trace@) },
            ),
    {
        let chunk: &'a Chunk = self.chunk.unwrap();
        let mut trace: Vec<TraceEntry> = Vec::new();
        assert(trace_view(trace@) =~= Seq::<Snapshot>::empty());
        loop
            invariant
                self@.chunk == Some(chunk@),
                self@.chunk == old(self)@.chunk,
                self@.tracing == old(self)@.tracing,
                forall|operation: Arithmetic| #[trigger] alu.requires((operation,)),
                forall|end: Run| #[trigger]
                    chunk@.runs_to(self@.tracing, *alu, self@.state, trace_view(trace@), end)
                        ==> chunk@.runs_to(
                        self@.tracing,
                        *alu,
                        old(self)@.state,
                        Seq::empty(),
                        end,
                    ),
            decreases chunk@.instructions.len() - self@.state.ip,
        {
            let ghost before = self@.state;
            let ghost behind = trace_view(trace@);
            if self.tracing {
                match chunk.disassemble_instruction(self.ip) {
                    Err(e) => {
                        assert(chunk@.runs_to(
                            self@.tracing,
                            *alu,
                            before,
                            behind,
                            Run { halt: Halt::Fault(e), state: before, trace: behind },
                        ));
                        return Execution { halt: Halt::Fault(e), trace };
                    },
                    Ok((line, _)) => {
                        let entry = TraceEntry { stack: self.stack_snapshot(), line };
                        assert(trace_view(trace@.push(entry)) =~= behind.push(entry@));
                        trace.push(entry);
                    },
                }
            }
            let ghost seen = trace_view(trace@);
            match self.step(alu) {
                Some(halt) => {
                    assert(chunk@.runs_to(
                        self@.tracing,
                        *alu,
                        before,
                        behind,
                        Run { halt, state: self@.state, trace: seen },
                    ));
                    return Execution { halt, trace };
                },
                None => {
                    assert forall|end: Run| #[trigger]
                        chunk@.runs_to(self@.tracing, *alu, self@.state, seen, end)
                            implies chunk@.runs_to(
                        self@.tracing,
                        *alu,
                        old(self)@.state,
                        Seq::empty(),
                        end,
                    ) by {
                        assert(chunk@.runs_to(self@.tracing, *alu, before, behind, end));
                    }
                },
            }
        }
    }

    /// Adopts `chunk` in place of the chunk adopted before, if any, and sets
    /// the instruction pointer to its start. The stack stays as it is.
    pub fn load(&mut self, chunk: &'a Chunk)
        ensures
            final(self)@ == (VmView {
                chunk: Some(chunk@),
                tracing: old(self)@.tracing,
                state: MachineState { ip: 0, stack: old(self)@.state.stack },
            }),
    {
        self.chunk = Some(chunk);
        self.ip = 0;
    }

    /// Adopts `chunk`, sets the instruction pointer to its start and runs
    /// it. The stack is taken as it stands. Operations on values are handed
    /// to `alu`.
    pub fn interpret<F: Fn(Arithmetic) -> Value>(
        &mut self,
        chunk: &'a Chunk,
        alu: &F,
    ) -> (r: Execution)
        requires
            forall|operation: Arithmetic| #[trigger] alu.requires((operation,)),
        ensures
            final(self)@.chunk == Some(chunk@),
            final(self)@.tracing == old(self)@.tracing,
            chunk@.runs_to(
                old(self)@.tracing,
                *alu,
                MachineState { ip: 0, stack: old(self)@.state.stack },
                Seq::empty(),
                Run { halt: r.halt, state: final(self)@.state, trace: trace_view(r.trace@) },
            ),
    {
        self.load(chunk);
        self.run(alu)
    }
}

} // verus!
