use barracuda::emulator::thread_context::{StackValue, ThreadContext, VmError};
use barracuda::emulator::thread_context::StackValue::{INT, REAL, UINT};
use barracuda::emulator::instructions::MathStackInstructions::{GOTO, GOTO_IF, LOOP_END, LOOP_ENTRY, OP, VALUE};
use barracuda::emulator::ops::MathStackOperators;
use barracuda::emulator::step::{execute_op, step, StepAction};
use barracuda::emulator_heap::HeapError;

fn context(stack_size: usize) -> ThreadContext {
    ThreadContext::new(stack_size, vec![0], vec![MathStackOperators::NULL], vec![OP, VALUE])
}

fn run(stack: &[StackValue], op: MathStackOperators) -> (Result<StepAction, VmError>, Vec<StackValue>) {
    let mut ctx = context(8);
    for v in stack {
        ctx.push(*v).unwrap();
    }
    let r = execute_op(op, &mut ctx);
    (r, ctx.get_stack())
}

#[test]
fn integer_operations_on_integers() {
    assert_eq!(run(&[UINT(6), UINT(3)], MathStackOperators::AND), (Ok(StepAction::Done), vec![UINT(2)]));
    assert_eq!(run(&[UINT(6), UINT(3)], MathStackOperators::OR), (Ok(StepAction::Done), vec![UINT(7)]));
    assert_eq!(run(&[UINT(6), UINT(3)], MathStackOperators::XOR), (Ok(StepAction::Done), vec![UINT(5)]));
    assert_eq!(run(&[UINT(6), UINT(3)], MathStackOperators::NAND), (Ok(StepAction::Done), vec![UINT(!2)]));
    assert_eq!(run(&[UINT(1), UINT(4)], MathStackOperators::LSHIFT), (Ok(StepAction::Done), vec![UINT(16)]));
    assert_eq!(run(&[UINT(16), UINT(2)], MathStackOperators::RSHIFT), (Ok(StepAction::Done), vec![UINT(4)]));
    assert_eq!(run(&[UINT(0)], MathStackOperators::NOT), (Ok(StepAction::Done), vec![UINT(u64::MAX)]));
    assert_eq!(run(&[INT(-1)], MathStackOperators::INC), (Ok(StepAction::Done), vec![UINT(0)]));
    assert_eq!(run(&[UINT(5)], MathStackOperators::DEC), (Ok(StepAction::Done), vec![UINT(4)]));
    assert_eq!(run(&[INT(-7), INT(2)], MathStackOperators::REM), (Ok(StepAction::Done), vec![INT(-1)]));
    assert_eq!(run(&[INT(7), INT(-2)], MathStackOperators::REM), (Ok(StepAction::Done), vec![INT(1)]));
    assert_eq!(run(&[UINT(3), INT(-5)], MathStackOperators::ADD_PTR), (Ok(StepAction::Done), vec![INT(-2)]));
    assert_eq!(run(&[INT(3), INT(5)], MathStackOperators::SUB_PTR), (Ok(StepAction::Done), vec![INT(-2)]));
}

#[test]
fn stack_operations() {
    assert_eq!(run(&[UINT(1), INT(2)], MathStackOperators::SWAP), (Ok(StepAction::Done), vec![INT(2), UINT(1)]));
    assert_eq!(run(&[REAL(9)], MathStackOperators::DUP), (Ok(StepAction::Done), vec![REAL(9), REAL(9)]));
    assert_eq!(run(&[UINT(1), UINT(2)], MathStackOperators::OVER), (Ok(StepAction::Done), vec![UINT(1), UINT(2), UINT(1)]));
    assert_eq!(run(&[], MathStackOperators::OVER), (Ok(StepAction::Done), vec![]));
    assert_eq!(run(&[UINT(1), UINT(2)], MathStackOperators::DROP), (Ok(StepAction::Done), vec![UINT(1)]));
    assert_eq!(run(&[UINT(1)], MathStackOperators::NULL), (Ok(StepAction::Done), vec![UINT(1)]));
    assert_eq!(run(&[], MathStackOperators::LDTID), (Ok(StepAction::Done), vec![UINT(0)]));
}

#[test]
fn step_errors_stop_where_they_happen() {
    assert_eq!(run(&[], MathStackOperators::DUP), (Err(VmError::StackEmpty), vec![]));
    // the first operand is popped before the second is found missing
    assert_eq!(run(&[UINT(1)], MathStackOperators::AND), (Err(VmError::StackEmpty), vec![]));
    let mut ctx = context(1);
    ctx.push(UINT(4)).unwrap();
    assert_eq!(execute_op(MathStackOperators::DUP, &mut ctx), Err(VmError::StackFull));
    assert_eq!(ctx.get_stack(), vec![UINT(4)]);
}

#[test]
fn floating_point_work_is_left_to_the_caller() {
    let two = 2.0f64.to_bits();
    assert_eq!(run(&[REAL(two), REAL(two)], MathStackOperators::ADD), (Ok(StepAction::External), vec![REAL(two), REAL(two)]));
    assert_eq!(run(&[UINT(1), REAL(two)], MathStackOperators::AND), (Ok(StepAction::External), vec![UINT(1), REAL(two)]));
    assert_eq!(run(&[UINT(1)], MathStackOperators::RCA), (Ok(StepAction::External), vec![UINT(1)]));
    assert_eq!(run(&[REAL(two)], MathStackOperators::MALLOC), (Ok(StepAction::External), vec![REAL(two)]));
    assert_eq!(run(&[UINT(1)], MathStackOperators::PRINTC), (Ok(StepAction::External), vec![UINT(1)]));
}

#[test]
fn environment_loads_and_stores() {
    let mut ctx = context(4);
    let bits = 1.5f64.to_bits();
    ctx.push(StackValue::REAL(bits)).unwrap();
    assert_eq!(execute_op(MathStackOperators::RCB, &mut ctx), Ok(StepAction::Done));
    assert_eq!(ctx.get_env_var(1), Ok(bits));
    assert_eq!(ctx.get_stack_len(), 0);
    assert_eq!(execute_op(MathStackOperators::LDB, &mut ctx), Ok(StepAction::Done));
    assert_eq!(ctx.get_stack(), vec![StackValue::REAL(bits)]);
    assert_eq!(execute_op(MathStackOperators::RCZ, &mut ctx), Ok(StepAction::Done));
    assert_eq!(ctx.get_env_var(25), Ok(bits));
    assert_eq!(execute_op(MathStackOperators::RCA, &mut ctx), Err(VmError::StackEmpty));
}

#[test]
fn steps_run_values_and_operations_in_order() {
    // program text: VALUE 1.5, OP DUP, OP DROP; stored last instruction first
    let bits = 1.5f64.to_bits();
    let mut ctx = ThreadContext::new(
        4,
        vec![bits],
        vec![MathStackOperators::DROP, MathStackOperators::DUP],
        vec![OP, OP, VALUE],
    );
    assert_eq!(step(&mut ctx), Ok(StepAction::Done));
    assert_eq!(ctx.get_stack(), vec![REAL(bits)]);
    assert_eq!(step(&mut ctx), Ok(StepAction::Done));
    assert_eq!(ctx.get_stack(), vec![REAL(bits), REAL(bits)]);
    assert_eq!(step(&mut ctx), Ok(StepAction::Done));
    assert_eq!(ctx.get_stack(), vec![REAL(bits)]);
    assert_eq!(ctx.get_pc(), 3);
    // at the end of the program a step does nothing
    assert_eq!(step(&mut ctx), Ok(StepAction::Done));
    assert_eq!(ctx.get_pc(), 3);
}

#[test]
fn steps_jump_and_loop() {
    let mut ctx = ThreadContext::new(4, vec![], vec![], vec![GOTO, GOTO]);
    ctx.push(UINT(1)).unwrap();
    assert_eq!(step(&mut ctx), Ok(StepAction::Done));
    assert_eq!(ctx.get_pc(), 1);
    ctx.push(REAL(1.0f64.to_bits())).unwrap();
    assert_eq!(step(&mut ctx), Ok(StepAction::External));
    assert_eq!(ctx.get_pc(), 1);

    let mut ctx = ThreadContext::new(4, vec![], vec![], vec![GOTO_IF]);
    ctx.push(INT(1)).unwrap();
    ctx.push(UINT(5)).unwrap();
    assert_eq!(step(&mut ctx), Ok(StepAction::Done));
    assert_eq!(ctx.get_pc(), 1);
    let mut ctx = ThreadContext::new(4, vec![], vec![], vec![GOTO_IF]);
    ctx.push(INT(0)).unwrap();
    ctx.push(UINT(5)).unwrap();
    assert_eq!(step(&mut ctx), Err(VmError::ProgramCounterOutOfRange));

    // LOOP_ENTRY 0..2 then LOOP_END: the body runs twice, then the loop ends
    let mut ctx = ThreadContext::new(4, vec![], vec![], vec![LOOP_END, LOOP_ENTRY]);
    ctx.push(INT(0)).unwrap();
    ctx.push(INT(2)).unwrap();
    assert_eq!(step(&mut ctx), Ok(StepAction::Done));
    assert_eq!(ctx.get_loop_counter_stack().len(), 1);
    assert_eq!(ctx.get_pc(), 1);
    assert_eq!(step(&mut ctx), Ok(StepAction::Done));
    assert_eq!(ctx.get_pc(), 1);
    assert_eq!(step(&mut ctx), Ok(StepAction::Done));
    assert_eq!(ctx.get_pc(), 2);
    assert!(ctx.get_loop_counter_stack().is_empty());
}

#[test]
fn heap_operations_on_integer_addresses() {
    let mut ctx = context(8);
    ctx.push(UINT(16)).unwrap();
    assert_eq!(execute_op(MathStackOperators::MALLOC, &mut ctx), Ok(StepAction::Done));
    let address = match ctx.pop().unwrap() {
        UINT(a) => a,
        other => panic!("unexpected {:?}", other),
    };
    assert_eq!(address, 0);
    ctx.push(UINT(address + 1)).unwrap();
    ctx.push(UINT(7)).unwrap();
    assert_eq!(execute_op(MathStackOperators::WRITE, &mut ctx), Ok(StepAction::Done));
    ctx.push(UINT(address + 1)).unwrap();
    assert_eq!(execute_op(MathStackOperators::READ, &mut ctx), Ok(StepAction::Done));
    assert_eq!(ctx.get_stack(), vec![UINT(7)]);
    ctx.pop().unwrap();
    // fill bytes 4..8 with 9, then copy bytes 0..8 to 8..16
    ctx.push(UINT(address + 4)).unwrap();
    ctx.push(UINT(9)).unwrap();
    ctx.push(UINT(4)).unwrap();
    assert_eq!(execute_op(MathStackOperators::MEMSET, &mut ctx), Ok(StepAction::Done));
    ctx.push(UINT(address + 8)).unwrap();
    ctx.push(UINT(address)).unwrap();
    ctx.push(UINT(8)).unwrap();
    assert_eq!(execute_op(MathStackOperators::MEMCPY, &mut ctx), Ok(StepAction::Done));
    ctx.push(UINT(address + 13)).unwrap();
    assert_eq!(execute_op(MathStackOperators::READ, &mut ctx), Ok(StepAction::Done));
    assert_eq!(ctx.pop(), Ok(UINT(9)));
    ctx.push(UINT(address + 9)).unwrap();
    assert_eq!(execute_op(MathStackOperators::READ, &mut ctx), Ok(StepAction::Done));
    assert_eq!(ctx.pop(), Ok(UINT(7)));
    // reading past the region fails
    ctx.push(UINT(address + 16)).unwrap();
    assert_eq!(execute_op(MathStackOperators::READ, &mut ctx), Err(VmError::Heap(HeapError::OutOfBounds)));
    ctx.push(UINT(address)).unwrap();
    assert_eq!(execute_op(MathStackOperators::FREE, &mut ctx), Ok(StepAction::Done));
    ctx.push(UINT(address)).unwrap();
    assert_eq!(execute_op(MathStackOperators::FREE, &mut ctx), Err(VmError::Heap(HeapError::AlreadyFree)));
}

#[test]
fn execution_finishes_at_the_end_of_the_instructions() {
    let mut ctx = ThreadContext::new(2, vec![0], vec![], vec![VALUE]);
    assert!(!ctx.is_execution_finished());
    assert_eq!(step(&mut ctx), Ok(StepAction::Done));
    assert!(ctx.is_execution_finished());
}
