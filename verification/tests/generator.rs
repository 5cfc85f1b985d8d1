use barracuda::ast::ast_node::ASTNode;
use barracuda::ast::literals::Literal;
use barracuda::backend::barracuda_backend::BarracudaBackend;
use barracuda::instructions::BarracudaInstructions::{GOTO, GOTO_IF, OP, VALUE};
use barracuda::ops::BarracudaOperators::FIXED;
use barracuda::ops::FixedBarracudaOperators::{NULL, PRINTC, PRINTFF, STK_READ, STK_WRITE};

fn ident(name: &str) -> Box<ASTNode> {
    Box::new(ASTNode::IDENTIFIER(String::from(name)))
}

/// let x = 2; print x;
#[test]
fn variables_live_in_stack_slots() {
    let program = ASTNode::STATEMENT_LIST(vec![
        ASTNode::CONSTRUCT {
            identifier: ident("x"),
            datatype: Box::new(None),
            expression: Box::new(ASTNode::LITERAL(Literal::INTEGER(2))),
        },
        ASTNode::PRINT { expression: ident("x") },
    ]);
    let code = BarracudaBackend::generate(&program);
    assert_eq!(code.instructions, vec![VALUE, VALUE, VALUE, OP, VALUE, OP, OP, VALUE, OP]);
    assert_eq!(
        code.operations,
        vec![FIXED(NULL), FIXED(NULL), FIXED(NULL), FIXED(STK_WRITE), FIXED(NULL), FIXED(STK_READ), FIXED(PRINTFF), FIXED(NULL), FIXED(PRINTC)]
    );
    assert_eq!(code.values, vec![0, 0, 2.0f64.to_bits(), 0, 0, 0, 0, 10.0f64.to_bits(), 0]);
}

/// while true {}
#[test]
fn loops_jump_to_their_labels() {
    let program = ASTNode::WHILE_LOOP {
        condition: Box::new(ASTNode::LITERAL(Literal::BOOL(true))),
        body: Box::new(ASTNode::STATEMENT_LIST(vec![])),
    };
    let code = BarracudaBackend::generate(&program);
    assert_eq!(code.instructions, vec![VALUE, VALUE, GOTO_IF, VALUE, GOTO]);
    assert_eq!(code.values, vec![1.0f64.to_bits(), 5.0f64.to_bits(), 0, 0, 0]);
}

/// fn f(a) : f64 { return a; } f(7);
#[test]
fn calls_store_arguments_and_jump() {
    let program = ASTNode::STATEMENT_LIST(vec![
        ASTNode::FUNCTION {
            identifier: ident("f"),
            parameters: vec![ASTNode::PARAMETER { identifier: ident("a"), datatype: Box::new(None) }],
            return_type: ident("f64"),
            body: Box::new(ASTNode::RETURN { expression: ident("a") }),
        },
        ASTNode::FUNC_CALL { identifier: ident("f"), arguments: vec![ASTNode::LITERAL(Literal::INTEGER(7))] },
    ]);
    let code = BarracudaBackend::generate(&program);
    // header slot for `a`; jump past the body; body: load a, swap, return;
    // call: store 7 in a's slot, push the return address and jump to f
    assert_eq!(
        code.instructions,
        vec![VALUE, VALUE, GOTO, VALUE, OP, OP, GOTO, GOTO, VALUE, VALUE, OP, VALUE, VALUE, GOTO]
    );
    assert_eq!(code.values[1], 8.0f64.to_bits());
    assert_eq!(code.values[8], 0);
    assert_eq!(code.values[9], 7.0f64.to_bits());
    assert_eq!(code.values[11], 14.0f64.to_bits());
    assert_eq!(code.values[12], 3.0f64.to_bits());
}

/// let y = 5; print y; compiled as a whole program
#[test]
fn compile_ast_gives_the_generated_program() {
    let program = ASTNode::STATEMENT_LIST(vec![
        ASTNode::CONSTRUCT {
            identifier: ident("y"),
            datatype: Box::new(None),
            expression: Box::new(ASTNode::LITERAL(Literal::INTEGER(5))),
        },
        ASTNode::PRINT { expression: ident("y") },
    ]);
    let code = barracuda::backend::barracuda_backend::compile_ast(&program);
    assert_eq!(code.instructions, vec![VALUE, VALUE, VALUE, OP, VALUE, OP, OP, VALUE, OP]);
    assert_eq!(
        code.operations,
        vec![FIXED(NULL), FIXED(NULL), FIXED(NULL), FIXED(STK_WRITE), FIXED(NULL), FIXED(STK_READ), FIXED(PRINTFF), FIXED(NULL), FIXED(PRINTC)]
    );
    assert_eq!(code.values, vec![0, 0, 5.0f64.to_bits(), 0, 0, 0, 0, 10.0f64.to_bits(), 0]);
}
