use barracuda::backend::stack_estimator::StackEstimator;
use barracuda::double_bits::double_to_usize;
use barracuda::instructions::BarracudaInstructions::{GOTO, GOTO_IF, OP, VALUE};
use barracuda::ops::BarracudaOperators::FIXED;
use barracuda::ops::FixedBarracudaOperators::ADD;
use barracuda::program_code::ProgramCode;

fn bits(values: &[f64]) -> Vec<u64> {
    values.iter().map(|v| v.to_bits()).collect()
}

#[test]
fn estimate_straight_line_addition() {
    let code = ProgramCode::new(bits(&[1.0, 2.0]), vec![FIXED(ADD)], vec![VALUE, VALUE, OP]);
    assert_eq!(StackEstimator::estimate_max_stacksize(&code, 10), (2, false));
}

#[test]
fn estimate_empty_program() {
    let code = ProgramCode::new(vec![], vec![], vec![]);
    assert_eq!(StackEstimator::estimate_max_stacksize(&code, 10), (0, false));
}

#[test]
fn estimate_stops_at_depth_limit() {
    let code = ProgramCode::new(bits(&[1.0, 2.0]), vec![FIXED(ADD)], vec![VALUE, VALUE, OP]);
    assert_eq!(StackEstimator::estimate_max_stacksize(&code, 0), (0, true));
}

#[test]
fn estimate_follows_both_ways_of_a_branch() {
    // condition, address 5, GOTO_IF; the taken way loads three values.
    let code = ProgramCode::new(
        bits(&[1.0, 5.0, 7.0, 8.0, 9.0]),
        vec![],
        vec![VALUE, VALUE, GOTO_IF, VALUE, VALUE, VALUE],
    );
    assert_eq!(StackEstimator::estimate_max_stacksize(&code, 10), (2, false));
}

#[test]
fn estimate_reports_a_branch_cut_by_the_depth_limit() {
    let code = ProgramCode::new(
        bits(&[1.0, 5.0, 7.0, 8.0, 9.0]),
        vec![],
        vec![VALUE, VALUE, GOTO_IF, VALUE, VALUE, VALUE],
    );
    assert_eq!(StackEstimator::estimate_max_stacksize(&code, 1), (2, true));
}

#[test]
fn estimate_ends_path_at_a_return() {
    // A jump whose address was not just loaded is a return: the path ends.
    let code = ProgramCode::new(bits(&[3.0, 4.0]), vec![FIXED(ADD)], vec![VALUE, VALUE, OP, GOTO]);
    assert_eq!(StackEstimator::estimate_max_stacksize(&code, 10), (2, false));
}

#[test]
fn estimate_follows_a_constant_jump() {
    // VALUE 4, GOTO jumps over the next VALUE to the end.
    let code = ProgramCode::new(bits(&[3.0, 8.0, 9.0]), vec![], vec![VALUE, GOTO, VALUE, VALUE]);
    assert_eq!(StackEstimator::estimate_max_stacksize(&code, 10), (1, false));
}

#[test]
fn double_to_usize_truncates_and_saturates() {
    assert_eq!(double_to_usize(5.0f64.to_bits()), 5);
    assert_eq!(double_to_usize(2.9f64.to_bits()), 2);
    assert_eq!(double_to_usize(0.5f64.to_bits()), 0);
    assert_eq!(double_to_usize((-1.0f64).to_bits()), 0);
    assert_eq!(double_to_usize(f64::NAN.to_bits()), 0);
    assert_eq!(double_to_usize(1e30f64.to_bits()), usize::MAX);
    assert_eq!(double_to_usize(f64::INFINITY.to_bits()), usize::MAX);
    assert_eq!(double_to_usize(4096.0f64.to_bits()), 4096);
}
