use barracuda::program_code::ProgramCode;
use barracuda::instructions::BarracudaInstructions::{VALUE, OP, GOTO};
use barracuda::ops::FixedBarracudaOperators::{ADD, SUB, MUL, NULL};

#[test]
fn mod_test_instruction_values_padding() {
    let instructions = vec![VALUE, OP, VALUE, OP, VALUE, OP];
    let unpadded_values = vec![1.0f64.to_bits(), 2.0f64.to_bits(), 3.0f64.to_bits()];
    let padded_values = ProgramCode::pad_list_to_size_of_instructions(VALUE, &instructions, &unpadded_values, 0.0f64.to_bits());

    assert_eq!(padded_values.len(), instructions.len());
    let expected: Vec<u64> = [1.0f64, 0.0, 2.0, 0.0, 3.0, 0.0].iter().map(|v| v.to_bits()).collect();
    assert_eq!(padded_values, expected);
}

#[test]
fn mod_test_instruction_operations_padding() {
    let instructions = vec![VALUE, OP, VALUE, OP, VALUE, OP];
    let unpadded_operations = vec![ADD, SUB, MUL];
    let padded_operations = ProgramCode::pad_list_to_size_of_instructions(OP, &instructions, &unpadded_operations, NULL);

    assert_eq!(padded_operations.len(), instructions.len());
    assert_eq!(padded_operations, vec![NULL, ADD, NULL, SUB, NULL, MUL]);
}

#[test]
fn mod_test_instruction_values_prepadded() {
    let instructions = vec![VALUE, OP, VALUE, OP, VALUE, OP];
    let unpadded_values: Vec<u64> = [1.0f64, 0.0, 2.0, 0.0, 3.0, 0.0].iter().map(|v| v.to_bits()).collect();
    let padded_values = ProgramCode::pad_list_to_size_of_instructions(VALUE, &instructions, &unpadded_values, 0.0f64.to_bits());

    assert_eq!(padded_values.len(), instructions.len());
    assert_eq!(padded_values, unpadded_values);
}

#[test]
fn mod_test_instruction_operations_prepadded() {
    let instructions = vec![VALUE, OP, VALUE, OP, VALUE, OP];
    let unpadded_operations = vec![NULL, ADD, NULL, SUB, NULL, MUL];
    let padded_operations = ProgramCode::pad_list_to_size_of_instructions(OP, &instructions, &unpadded_operations, NULL);

    assert_eq!(padded_operations.len(), instructions.len());
    assert_eq!(padded_operations, vec![NULL, ADD, NULL, SUB, NULL, MUL]);
}

#[test]
fn builder_functions_keep_tables_aligned() {
    let mut code = ProgramCode::default();
    code.push_value(7);
    code.push_operation(barracuda::ops::BarracudaOperators::FIXED(ADD));
    code.push_comment(String::from("jump"));
    code.push_comment(String::from("back"));
    code.push_instruction(GOTO);
    assert_eq!(code.values, vec![7, 0, 0]);
    assert_eq!(code.instructions, vec![VALUE, OP, GOTO]);
    assert_eq!(code.operations.len(), 3);
    assert_eq!(code.comments_at(2).unwrap(), &vec![String::from("jump"), String::from("back")]);
    assert!(code.comments_at(0).is_none());
    assert!(!code.is_decorated());
    let code = code.decorated();
    assert!(code.is_decorated());
}
