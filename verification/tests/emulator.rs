use barracuda::emulator::thread_context::{LoopTracker, ProgramCode, StackValue, ThreadContext, VmError};
use barracuda::emulator::instructions::MathStackInstructions::{GOTO, OP, VALUE, LOOP_END};
use barracuda::emulator::ops::MathStackOperators::{ADD, MUL, NULL, SUB};

fn value_bits(values: &[f64]) -> Vec<u64> {
    values.iter().map(|v| v.to_bits()).collect()
}

#[test]
fn emulator_unit_test_test_instruction_values_padding() {
    let instructions = vec![VALUE, OP, VALUE, OP, VALUE, OP];
    let unpadded_values = value_bits(&[1.0, 2.0, 3.0]);
    let padded_values = ProgramCode::pad_list_to_size_of_instructions(VALUE, &instructions, &unpadded_values, 0.0f64.to_bits());

    assert_eq!(padded_values.len(), instructions.len());
    assert_eq!(padded_values, value_bits(&[1.0, 0.0, 2.0, 0.0, 3.0, 0.0]));
}

#[test]
fn emulator_unit_test_test_instruction_operations_padding() {
    let instructions = vec![VALUE, OP, VALUE, OP, VALUE, OP];
    let unpadded_operations = vec![ADD, SUB, MUL];
    let padded_operations = ProgramCode::pad_list_to_size_of_instructions(OP, &instructions, &unpadded_operations, NULL);

    assert_eq!(padded_operations.len(), instructions.len());
    assert_eq!(padded_operations, vec![NULL, ADD, NULL, SUB, NULL, MUL]);
}

#[test]
fn emulator_unit_test_test_instruction_values_prepadded() {
    let instructions = vec![VALUE, OP, VALUE, OP, VALUE, OP];
    let unpadded_values = value_bits(&[1.0, 0.0, 2.0, 0.0, 3.0, 0.0]);
    let padded_values = ProgramCode::pad_list_to_size_of_instructions(VALUE, &instructions, &unpadded_values, 0.0f64.to_bits());

    assert_eq!(padded_values.len(), instructions.len());
    assert_eq!(padded_values, value_bits(&[1.0, 0.0, 2.0, 0.0, 3.0, 0.0]));
}

#[test]
fn emulator_unit_test_test_instruction_operations_prepadded() {
    let instructions = vec![VALUE, OP, VALUE, OP, VALUE, OP];
    let unpadded_operations = vec![NULL, ADD, NULL, SUB, NULL, MUL];
    let padded_operations = ProgramCode::pad_list_to_size_of_instructions(OP, &instructions, &unpadded_operations, NULL);

    assert_eq!(padded_operations.len(), instructions.len());
    assert_eq!(padded_operations, vec![NULL, ADD, NULL, SUB, NULL, MUL]);
}

fn context() -> ThreadContext {
    // program text top to bottom: 2, 3, ADD, GOTO; stored bottom first
    ThreadContext::new(2, vec![3, 2], vec![ADD], vec![GOTO, OP, VALUE, VALUE])
}

#[test]
fn stack_is_bounded() {
    let mut ctx = context();
    assert_eq!(ctx.pop(), Err(VmError::StackEmpty));
    assert_eq!(ctx.push(StackValue::UINT(1)), Ok(()));
    assert_eq!(ctx.push(StackValue::INT(-1)), Ok(()));
    assert_eq!(ctx.push(StackValue::REAL(0)), Err(VmError::StackFull));
    assert_eq!(ctx.get_stack_pointer(), Some(1));
    assert_eq!(ctx.pop(), Ok(StackValue::INT(-1)));
    assert_eq!(ctx.read_stack(0), Ok(StackValue::UINT(1)));
    assert_eq!(ctx.read_stack(1), Err(VmError::InvalidStackAddress));
    assert_eq!(ctx.write_stack(0, StackValue::UINT(9)), Ok(()));
    assert_eq!(ctx.write_stack(3, StackValue::UINT(9)), Err(VmError::InvalidStackAddress));
    assert_eq!(ctx.get_stack(), vec![StackValue::UINT(9)]);
    ctx.set_stack_len(3);
    assert_eq!(ctx.get_stack(), vec![StackValue::UINT(9), StackValue::UINT(0), StackValue::UINT(0)]);
    ctx.set_stack_pointer(0);
    assert_eq!(ctx.get_stack_len(), 1);
}

#[test]
fn program_is_read_from_the_end() {
    let mut ctx = context();
    assert_eq!(ctx.get_instruction(), VALUE);
    assert_eq!(ctx.get_value(), 2);
    ctx.step_pc();
    assert_eq!(ctx.get_value(), 3);
    ctx.step_pc();
    assert_eq!(ctx.get_instruction(), OP);
    assert_eq!(ctx.get_operation(), ADD);
    assert_eq!(ctx.set_pc(4), Ok(()));
    assert_eq!(ctx.set_pc(5), Err(VmError::ProgramCounterOutOfRange));
    assert_eq!(ctx.get_pc(), 4);
    assert_eq!(ctx.get_instructions().len(), 4);
    assert_eq!(ctx.get_values().len(), 4);
    assert_eq!(ctx.get_operations(), &vec![NULL, ADD, NULL, NULL]);
}

#[test]
fn loops_repeat_until_their_bound() {
    let mut ctx = ThreadContext::new(4, vec![], vec![], vec![LOOP_END, GOTO, GOTO]);
    assert_eq!(ctx.iterate_loop(), Err(VmError::NoLoopCounter));
    ctx.enter_loop(LoopTracker::new(0, 2, 1));
    ctx.set_pc(2).unwrap();
    assert_eq!(ctx.iterate_loop(), Ok(()));
    assert_eq!(ctx.get_pc(), 1);
    assert_eq!(ctx.get_loop_counter_stack()[0].current(), 1);
    ctx.set_pc(2).unwrap();
    assert_eq!(ctx.iterate_loop(), Ok(()));
    assert_eq!(ctx.get_pc(), 2);
    assert!(ctx.get_loop_counter_stack().is_empty());
}

#[test]
fn environment_variables() {
    let mut ctx = context();
    assert_eq!(ctx.get_env_var(0), Ok(0));
    assert_eq!(ctx.set_env_var(55, 7), Ok(()));
    assert_eq!(ctx.get_env_var(55), Ok(7));
    assert_eq!(ctx.set_env_var(56, 7), Err(VmError::NoSuchEnvVar));
    assert_eq!(ctx.get_env_var(56), Err(VmError::NoSuchEnvVar));
    assert_eq!(ctx.get_env_var_name(0), Ok(String::from("A")));
    assert_eq!(ctx.get_env_var_name(26), Ok(String::from("DX")));
    assert_eq!(ctx.get_env_var_name(55), Ok(String::from("Z0")));
    assert_eq!(ctx.get_env_var_name(56), Err(VmError::NoSuchEnvVar));
}
