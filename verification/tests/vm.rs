use bytecode_vm::{
    Action, Arithmetic, Chunk, Halt, Instruction, InternalError, InterpretResult, LineColumn,
    OpCode, Value, VM,
};

fn value(x: f64) -> Value {
    Value { bits: x.to_bits() }
}

fn number(v: Value) -> f64 {
    f64::from_bits(v.bits)
}

/// The arithmetic of doubles.
fn alu(operation: Arithmetic) -> Value {
    match operation {
        Arithmetic::Negate { operand } => value(-number(operand)),
        Arithmetic::Add { lhs, rhs } => value(number(lhs) + number(rhs)),
        Arithmetic::Subtract { lhs, rhs } => value(number(lhs) - number(rhs)),
        Arithmetic::Multiply { lhs, rhs } => value(number(lhs) * number(rhs)),
        Arithmetic::Divide { lhs, rhs } => value(number(lhs) / number(rhs)),
    }
}

fn push_constant(chunk: &mut Chunk, x: f64, line: usize) {
    let index = chunk.append_constant(value(x)).unwrap();
    chunk.append_instruction(OpCode::Constant, line);
    chunk.append_parameter(index, line);
}

fn returned(halt: Halt) -> f64 {
    match halt {
        Halt::Returned(v) => number(v),
        other => panic!("no value returned: {:?}", other),
    }
}

/// `-(1.2 + 3.4) / 5.6`
fn sample() -> Chunk {
    let mut chunk = Chunk::new();
    let c1 = chunk.append_constant(value(1.2)).unwrap();
    let c2 = chunk.append_constant(value(3.4)).unwrap();
    let c3 = chunk.append_constant(value(5.6)).unwrap();
    chunk.append_instruction(OpCode::Constant, 123);
    chunk.append_parameter(c1, 123);
    chunk.append_instruction(OpCode::Constant, 123);
    chunk.append_parameter(c2, 123);
    chunk.append_instruction(OpCode::Add, 123);
    chunk.append_instruction(OpCode::Constant, 123);
    chunk.append_parameter(c3, 123);
    chunk.append_instruction(OpCode::Divide, 123);
    chunk.append_instruction(OpCode::Negate, 123);
    chunk.append_instruction(OpCode::Return, 123);
    chunk
}

#[test]
fn sample_program_reports_its_value() {
    let chunk = sample();
    let mut vm = VM::create(false);
    let execution = vm.interpret(&chunk, &alu);
    let result = returned(execution.halt);
    assert!((result - (-0.8214285714285714)).abs() < 1e-15);
    assert_eq!(result, -((1.2 + 3.4) / 5.6));
    assert_eq!(execution.halt.status(), Ok(InterpretResult::Success));
    assert!(execution.trace.is_empty());
}

#[test]
fn pushes_then_return_report_the_last_constant() {
    for count in 1..=20usize {
        let mut chunk = Chunk::new();
        for i in 0..count {
            push_constant(&mut chunk, i as f64 + 0.5, 1);
        }
        chunk.append_instruction(OpCode::Return, 1);
        let mut vm = VM::create(false);
        let execution = vm.interpret(&chunk, &alu);
        assert_eq!(execution.halt, Halt::Returned(value(count as f64 - 0.5)));
    }
}

#[test]
fn one_push_and_return_reports_the_constant() {
    let mut chunk = Chunk::new();
    push_constant(&mut chunk, 42.25, 1);
    chunk.append_instruction(OpCode::Return, 1);
    let mut vm = VM::create(false);
    assert_eq!(vm.interpret(&chunk, &alu).halt, Halt::Returned(value(42.25)));
}

#[test]
fn subtract_takes_the_first_push_as_left_operand() {
    let mut chunk = Chunk::new();
    push_constant(&mut chunk, 10.0, 1);
    push_constant(&mut chunk, 4.0, 1);
    chunk.append_instruction(OpCode::Subtract, 1);
    chunk.append_instruction(OpCode::Return, 1);
    let mut vm = VM::create(false);
    assert_eq!(returned(vm.interpret(&chunk, &alu).halt), 6.0);
}

#[test]
fn divide_takes_the_first_push_as_left_operand() {
    let mut chunk = Chunk::new();
    push_constant(&mut chunk, 10.0, 1);
    push_constant(&mut chunk, 4.0, 1);
    chunk.append_instruction(OpCode::Divide, 1);
    chunk.append_instruction(OpCode::Return, 1);
    let mut vm = VM::create(false);
    assert_eq!(returned(vm.interpret(&chunk, &alu).halt), 2.5);
}

#[test]
fn add_and_multiply_compute() {
    let mut chunk = Chunk::new();
    push_constant(&mut chunk, 1.5, 1);
    push_constant(&mut chunk, 2.0, 1);
    chunk.append_instruction(OpCode::Add, 1);
    push_constant(&mut chunk, 4.0, 1);
    chunk.append_instruction(OpCode::Multiply, 1);
    chunk.append_instruction(OpCode::Return, 1);
    let mut vm = VM::create(false);
    assert_eq!(returned(vm.interpret(&chunk, &alu).halt), 14.0);
}

#[test]
fn negate_changes_the_sign() {
    let mut chunk = Chunk::new();
    push_constant(&mut chunk, 3.0, 1);
    chunk.append_instruction(OpCode::Negate, 1);
    chunk.append_instruction(OpCode::Return, 1);
    let mut vm = VM::create(false);
    assert_eq!(returned(vm.interpret(&chunk, &alu).halt), -3.0);
}

#[test]
fn division_by_zero_gives_what_doubles_give() {
    let mut chunk = Chunk::new();
    push_constant(&mut chunk, 1.0, 1);
    push_constant(&mut chunk, 0.0, 1);
    chunk.append_instruction(OpCode::Divide, 1);
    chunk.append_instruction(OpCode::Return, 1);
    let mut vm = VM::create(false);
    assert_eq!(returned(vm.interpret(&chunk, &alu).halt), f64::INFINITY);

    let mut chunk = Chunk::new();
    push_constant(&mut chunk, 0.0, 1);
    push_constant(&mut chunk, 0.0, 1);
    chunk.append_instruction(OpCode::Divide, 1);
    chunk.append_instruction(OpCode::Return, 1);
    let mut vm = VM::create(false);
    let execution = vm.interpret(&chunk, &alu);
    assert!(returned(execution.halt).is_nan());
    assert_eq!(execution.halt.status(), Ok(InterpretResult::Success));
}

#[test]
fn return_on_an_empty_stack_is_a_runtime_error() {
    let mut chunk = Chunk::new();
    chunk.append_instruction(OpCode::Return, 1);
    let mut vm = VM::create(false);
    let execution = vm.interpret(&chunk, &alu);
    assert_eq!(execution.halt, Halt::StackUnderflow);
    assert_eq!(execution.halt.status(), Ok(InterpretResult::RuntimeError));
}

#[test]
fn negate_on_an_empty_stack_is_a_runtime_error() {
    let mut chunk = Chunk::new();
    chunk.append_instruction(OpCode::Negate, 1);
    chunk.append_instruction(OpCode::Return, 1);
    let mut vm = VM::create(false);
    assert_eq!(vm.interpret(&chunk, &alu).halt, Halt::StackUnderflow);
}

#[test]
fn binary_operation_on_one_value_is_a_runtime_error() {
    for op in [OpCode::Add, OpCode::Subtract, OpCode::Multiply, OpCode::Divide] {
        let mut chunk = Chunk::new();
        push_constant(&mut chunk, 1.0, 1);
        chunk.append_instruction(op, 1);
        chunk.append_instruction(OpCode::Return, 1);
        let mut vm = VM::create(false);
        let execution = vm.interpret(&chunk, &alu);
        assert_eq!(execution.halt, Halt::StackUnderflow);
        assert_eq!(execution.halt.status(), Ok(InterpretResult::RuntimeError));
        // the one value was popped before the second was missed
        assert_eq!(vm.pop(), None);
    }
}

#[test]
fn binary_operation_on_an_empty_stack_is_a_runtime_error() {
    for op in [OpCode::Add, OpCode::Subtract, OpCode::Multiply, OpCode::Divide] {
        let mut chunk = Chunk::new();
        chunk.append_instruction(op, 1);
        let mut vm = VM::create(false);
        assert_eq!(vm.interpret(&chunk, &alu).halt, Halt::StackUnderflow);
    }
}

#[test]
fn underflow_does_not_ask_for_arithmetic() {
    let mut chunk = Chunk::new();
    push_constant(&mut chunk, 1.0, 1);
    chunk.append_instruction(OpCode::Add, 1);
    let mut vm = VM::create(false);
    let refuse = |operation: Arithmetic| -> Value { panic!("asked for {:?}", operation) };
    assert_eq!(vm.interpret(&chunk, &refuse).halt, Halt::StackUnderflow);
}

#[test]
fn running_off_the_end_is_a_fault() {
    let mut chunk = Chunk::new();
    push_constant(&mut chunk, 1.0, 1);
    let mut vm = VM::create(false);
    let execution = vm.interpret(&chunk, &alu);
    assert_eq!(
        execution.halt,
        Halt::Fault(InternalError::InstructionOutOfRange { offset: 2 })
    );
    assert_eq!(
        execution.halt.status(),
        Err(InternalError::InstructionOutOfRange { offset: 2 })
    );
    assert_eq!(vm.pop(), Some(value(1.0)));
}

#[test]
fn empty_chunk_is_a_fault() {
    let chunk = Chunk::new();
    let mut vm = VM::create(false);
    assert_eq!(
        vm.interpret(&chunk, &alu).halt,
        Halt::Fault(InternalError::InstructionOutOfRange { offset: 0 })
    );
}

#[test]
fn unknown_opcode_is_a_fault() {
    let mut chunk = Chunk::new();
    push_constant(&mut chunk, 1.0, 1);
    chunk.append_parameter(200, 1);
    chunk.append_instruction(OpCode::Return, 1);
    let mut vm = VM::create(false);
    assert_eq!(
        vm.interpret(&chunk, &alu).halt,
        Halt::Fault(InternalError::UnknownOpcode { byte: 200 })
    );
    // the machine stopped in front of the byte, the value still on the stack
    assert_eq!(vm.pop(), Some(value(1.0)));
}

#[test]
fn missing_operand_is_a_fault() {
    let mut chunk = Chunk::new();
    chunk.append_constant(value(1.0)).unwrap();
    chunk.append_instruction(OpCode::Constant, 1);
    let mut vm = VM::create(false);
    assert_eq!(
        vm.interpret(&chunk, &alu).halt,
        Halt::Fault(InternalError::InstructionOutOfRange { offset: 1 })
    );
}

#[test]
fn constant_outside_the_pool_is_a_fault() {
    let mut chunk = Chunk::new();
    chunk.append_constant(value(1.0)).unwrap();
    chunk.append_instruction(OpCode::Constant, 1);
    chunk.append_parameter(5, 1);
    chunk.append_instruction(OpCode::Return, 1);
    let mut vm = VM::create(false);
    assert_eq!(
        vm.interpret(&chunk, &alu).halt,
        Halt::Fault(InternalError::ConstantOutOfRange { index: 5 })
    );
}

#[test]
fn status_of_every_halt() {
    assert_eq!(Halt::Returned(value(0.0)).status(), Ok(InterpretResult::Success));
    assert_eq!(Halt::StackUnderflow.status(), Ok(InterpretResult::RuntimeError));
    let e = InternalError::UnknownOpcode { byte: 9 };
    assert_eq!(Halt::Fault(e).status(), Err(e));
    assert_ne!(Halt::StackUnderflow.status(), Ok(InterpretResult::CompileError));
}

#[test]
fn tracing_records_every_instruction_with_the_stack_before_it() {
    let chunk = sample();
    let mut vm = VM::create(true);
    let execution = vm.interpret(&chunk, &alu);
    assert_eq!(returned(execution.halt), -((1.2 + 3.4) / 5.6));
    let offsets: Vec<usize> = execution.trace.iter().map(|entry| entry.line.offset).collect();
    assert_eq!(offsets, vec![0, 2, 4, 5, 7, 8, 9]);
    let stacks: Vec<Vec<f64>> = execution
        .trace
        .iter()
        .map(|entry| entry.stack.iter().map(|v| number(*v)).collect())
        .collect();
    assert_eq!(
        stacks,
        vec![
            vec![],
            vec![1.2],
            vec![1.2, 3.4],
            vec![1.2 + 3.4],
            vec![1.2 + 3.4, 5.6],
            vec![(1.2 + 3.4) / 5.6],
            vec![-((1.2 + 3.4) / 5.6)],
        ]
    );
    assert_eq!(execution.trace[0].line.line, LineColumn::Number(123));
    assert_eq!(execution.trace[1].line.line, LineColumn::Same);
    assert_eq!(execution.trace[2].line.instruction, Instruction::Add);
    assert_eq!(
        execution.trace[3].line.instruction,
        Instruction::Constant { index: 2, value: value(5.6) }
    );
}

#[test]
fn tracing_changes_no_result() {
    let programs = [sample(), Chunk::new(), {
        let mut chunk = Chunk::new();
        push_constant(&mut chunk, 1.0, 1);
        chunk.append_instruction(OpCode::Add, 2);
        chunk
    }, {
        let mut chunk = Chunk::new();
        push_constant(&mut chunk, 1.0, 1);
        chunk.append_parameter(77, 1);
        chunk
    }];
    for chunk in programs.iter() {
        let mut silent = VM::create(false);
        let mut tracing = VM::create(true);
        let a = silent.interpret(chunk, &alu);
        let b = tracing.interpret(chunk, &alu);
        assert_eq!(a.halt, b.halt);
        assert!(a.trace.is_empty());
        loop {
            let (x, y) = (silent.pop(), tracing.pop());
            assert_eq!(x, y);
            if x.is_none() {
                break;
            }
        }
    }
}

#[test]
fn trace_stops_in_front_of_a_fault() {
    let mut chunk = Chunk::new();
    push_constant(&mut chunk, 1.0, 1);
    chunk.append_parameter(77, 1);
    let mut vm = VM::create(true);
    let execution = vm.interpret(&chunk, &alu);
    assert_eq!(execution.halt, Halt::Fault(InternalError::UnknownOpcode { byte: 77 }));
    assert_eq!(execution.trace.len(), 1);
    assert_eq!(execution.trace[0].line.offset, 0);
}

#[test]
fn trace_holds_the_instruction_that_underflows() {
    let mut chunk = Chunk::new();
    chunk.append_instruction(OpCode::Negate, 1);
    let mut vm = VM::create(true);
    let execution = vm.interpret(&chunk, &alu);
    assert_eq!(execution.halt, Halt::StackUnderflow);
    assert_eq!(execution.trace.len(), 1);
    assert_eq!(execution.trace[0].line.instruction, Instruction::Negate);
    assert!(execution.trace[0].stack.is_empty());
}

#[test]
fn interpret_starts_at_the_beginning_and_keeps_the_stack() {
    let mut first = Chunk::new();
    push_constant(&mut first, 7.0, 1);
    push_constant(&mut first, 8.0, 1);
    first.append_instruction(OpCode::Return, 1);
    let mut second = Chunk::new();
    second.append_instruction(OpCode::Return, 1);
    let mut vm = VM::create(false);
    assert_eq!(vm.interpret(&first, &alu).halt, Halt::Returned(value(8.0)));
    // 7.0 is still on the stack, and the second chunk runs from its offset 0
    assert_eq!(vm.interpret(&second, &alu).halt, Halt::Returned(value(7.0)));
    assert_eq!(vm.interpret(&second, &alu).halt, Halt::StackUnderflow);
    assert_eq!(vm.interpret(&first, &alu).halt, Halt::Returned(value(8.0)));
}

#[test]
fn push_and_pop_are_last_in_first_out() {
    let mut vm = VM::create(false);
    assert_eq!(vm.pop(), None);
    vm.push(value(1.0));
    vm.push(value(2.0));
    vm.push(value(3.0));
    assert_eq!(vm.pop(), Some(value(3.0)));
    assert_eq!(vm.pop(), Some(value(2.0)));
    vm.push(value(4.0));
    assert_eq!(vm.pop(), Some(value(4.0)));
    assert_eq!(vm.pop(), Some(value(1.0)));
    assert_eq!(vm.pop(), None);
    assert_eq!(vm.pop(), None);
}

#[test]
fn operands_reach_the_arithmetic_in_order() {
    let ops = [
        (OpCode::Add, Arithmetic::Add { lhs: value(10.0), rhs: value(4.0) }),
        (OpCode::Subtract, Arithmetic::Subtract { lhs: value(10.0), rhs: value(4.0) }),
        (OpCode::Multiply, Arithmetic::Multiply { lhs: value(10.0), rhs: value(4.0) }),
        (OpCode::Divide, Arithmetic::Divide { lhs: value(10.0), rhs: value(4.0) }),
    ];
    for (op, operation) in ops {
        let mut chunk = Chunk::new();
        push_constant(&mut chunk, 10.0, 1);
        push_constant(&mut chunk, 4.0, 1);
        chunk.append_instruction(op, 1);
        chunk.append_instruction(OpCode::Return, 1);
        let mut vm = VM::create(false);
        vm.push(value(99.0));
        let execution = vm.interpret(&chunk, &|asked: Arithmetic| {
            assert_eq!(asked, operation);
            value(1.0)
        });
        assert_eq!(execution.halt, Halt::Returned(value(1.0)));
        assert_eq!(vm.pop(), Some(value(99.0)));
        assert_eq!(vm.pop(), None);
    }
}

/// `CONSTANT 10; NEGATE; RETURN; RETURN`
fn negation() -> Chunk {
    let mut chunk = Chunk::new();
    push_constant(&mut chunk, 10.0, 1);
    chunk.append_instruction(OpCode::Negate, 1);
    chunk.append_instruction(OpCode::Return, 1);
    chunk.append_instruction(OpCode::Return, 1);
    chunk
}

#[test]
fn dispatch_goes_one_instruction_at_a_time() {
    let chunk = negation();
    let mut vm = VM::create(false);
    vm.load(&chunk);
    assert_eq!(vm.dispatch(), Action::Continue);
    assert_eq!(vm.dispatch(), Action::Compute(Arithmetic::Negate { operand: value(10.0) }));
    // the operand has left the stack
    assert_eq!(vm.pop(), None);
    vm.push(value(-10.0));
    assert_eq!(vm.dispatch(), Action::Halt(Halt::Returned(value(-10.0))));
    assert_eq!(vm.dispatch(), Action::Halt(Halt::StackUnderflow));
    assert_eq!(
        vm.dispatch(),
        Action::Halt(Halt::Fault(InternalError::InstructionOutOfRange { offset: 5 }))
    );
    // a fault leaves the machine where it is
    assert_eq!(
        vm.dispatch(),
        Action::Halt(Halt::Fault(InternalError::InstructionOutOfRange { offset: 5 }))
    );
}

#[test]
fn step_pushes_what_the_arithmetic_yields() {
    let chunk = negation();
    let mut vm = VM::create(false);
    vm.load(&chunk);
    assert_eq!(vm.step(&alu), None);
    assert_eq!(vm.step(&alu), None);
    assert_eq!(vm.pop(), Some(value(-10.0)));
    vm.push(value(-10.0));
    assert_eq!(vm.step(&alu), Some(Halt::Returned(value(-10.0))));
    assert_eq!(vm.step(&alu), Some(Halt::StackUnderflow));
}

#[test]
fn run_goes_on_from_where_the_machine_stands() {
    let chunk = negation();
    let mut vm = VM::create(false);
    vm.load(&chunk);
    assert_eq!(vm.step(&alu), None);
    vm.push(value(3.0));
    // the stack holds 10 and 3; the run negates 3 and returns it
    assert_eq!(vm.run(&alu).halt, Halt::Returned(value(-3.0)));
    // and on from behind the first `Return`: the second pops 10
    assert_eq!(vm.run(&alu).halt, Halt::Returned(value(10.0)));
    assert_eq!(
        vm.run(&alu).halt,
        Halt::Fault(InternalError::InstructionOutOfRange { offset: 5 })
    );
}

#[test]
fn load_sets_the_machine_to_the_start() {
    let chunk = negation();
    let mut vm = VM::create(false);
    vm.load(&chunk);
    assert_eq!(vm.step(&alu), None);
    assert_eq!(vm.step(&alu), None);
    vm.load(&chunk);
    // back at offset 0 with -10 on the stack: the next push makes it two values
    assert_eq!(vm.step(&alu), None);
    assert_eq!(vm.pop(), Some(value(10.0)));
    assert_eq!(vm.pop(), Some(value(-10.0)));
    assert_eq!(vm.pop(), None);
}

#[test]
fn new_machine_is_idle() {
    let vm = VM::create(true);
    assert!(vm.chunk().is_none());
    assert_eq!(vm.ip(), 0);
    assert!(vm.stack().is_empty());
    assert!(vm.is_tracing());
    assert!(!VM::create(false).is_tracing());
}

#[test]
fn instruction_pointer_moves_past_what_was_executed() {
    let chunk = negation();
    let mut vm = VM::create(false);
    vm.load(&chunk);
    assert!(vm.chunk().is_some());
    assert_eq!(vm.ip(), 0);
    vm.step(&alu);
    assert_eq!(vm.ip(), 2);
    assert_eq!(vm.stack(), &vec![value(10.0)]);
    vm.step(&alu);
    assert_eq!(vm.ip(), 3);
    assert_eq!(vm.stack(), &vec![value(-10.0)]);
    vm.step(&alu);
    assert_eq!(vm.ip(), 4);
    assert!(vm.stack().is_empty());
    // an underflow is met behind the opcode
    vm.step(&alu);
    assert_eq!(vm.ip(), 5);
    // a fault in front of it
    vm.step(&alu);
    assert_eq!(vm.ip(), 5);
}

#[test]
fn sample_program_ends_behind_its_return() {
    let chunk = sample();
    let mut vm = VM::create(false);
    vm.push(value(0.25));
    vm.interpret(&chunk, &alu);
    assert_eq!(vm.ip(), 10);
    assert_eq!(vm.ip(), chunk.len());
    assert_eq!(vm.stack(), &vec![value(0.25)]);
}
