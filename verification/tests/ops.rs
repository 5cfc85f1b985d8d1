use barracuda::ops::{BarracudaOperators, FixedBarracudaOperators};
use barracuda::ops::BarracudaOperators::FIXED;
use barracuda::instructions::BarracudaInstructions;

#[test]
fn test_from_str_fixed_op() {
    let test_str = "SUB_PTR";
    let op = BarracudaOperators::from_str(test_str)
        .expect("Could not parse string into fixed operator");
    assert_eq!(op, FIXED(FixedBarracudaOperators::SUB_PTR));
}

#[test]
fn operator_opcodes() {
    assert_eq!(FixedBarracudaOperators::ADD.as_u32(), 0x03CC);
    assert_eq!(FixedBarracudaOperators::from(0x03CC), Some(FixedBarracudaOperators::ADD));
    assert_eq!(FixedBarracudaOperators::from(0x1234), None);
    assert_eq!(BarracudaOperators::from(0x16C9), Some(FIXED(FixedBarracudaOperators::DOUBLETOLONGLONG)));
    assert_eq!(FIXED(FixedBarracudaOperators::PRINTFF).as_u32(), 0x0B66);
    assert_eq!(FIXED(FixedBarracudaOperators::RCNX).as_u32(), 0x1303);
}

#[test]
fn operator_stack_effects() {
    assert_eq!(FIXED(FixedBarracudaOperators::ADD).consume(), 2);
    assert_eq!(FIXED(FixedBarracudaOperators::ADD).produce(), 1);
    assert_eq!(FIXED(FixedBarracudaOperators::OVER).produce(), 3);
    assert_eq!(FIXED(FixedBarracudaOperators::NORM).consume(), -1);
    assert_eq!(FIXED(FixedBarracudaOperators::MEMCPY).consume(), 3);
    assert_eq!(FIXED(FixedBarracudaOperators::LDPC).consume(), 0);
}

#[test]
fn operator_names() {
    assert_eq!(BarracudaOperators::from_str("ADD"), Ok(FIXED(FixedBarracudaOperators::ADD)));
    assert_eq!(BarracudaOperators::from_str("DOUBLETOLONGLONG"), Ok(FIXED(FixedBarracudaOperators::DOUBLETOLONGLONG)));
    assert_eq!(BarracudaOperators::from_str("PRINTER"), Err(()));
    assert_eq!(BarracudaOperators::from_str("add"), Err(()));
    assert_eq!(BarracudaOperators::from_str(""), Err(()));
    assert_eq!(FIXED(FixedBarracudaOperators::STK_READ).to_text(), "STK_READ");
}

#[test]
fn instruction_codes_and_names() {
    assert_eq!(BarracudaInstructions::GOTO_IF.as_u32(), 3);
    assert_eq!(BarracudaInstructions::LOOP_END.as_u32(), 100);
    assert_eq!(BarracudaInstructions::from_str("GOTO"), Ok(BarracudaInstructions::GOTO));
    assert_eq!(BarracudaInstructions::from_str("LOOP_ENTRY"), Ok(BarracudaInstructions::LOOP_ENTRY));
    assert_eq!(BarracudaInstructions::from_str("GOTO "), Err(()));
}
