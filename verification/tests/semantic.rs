use barracuda::semantic::scope_tracker::ScopeTracker;
use barracuda::semantic::function_tracker::{FunctionImplementation, FunctionTracker};
use barracuda::ast::symbol_table::SymbolType;
use barracuda::ast::datatype::{DataType, PrimitiveDataType};
use barracuda::ast::ast_node::ASTNode;

fn var(p: PrimitiveDataType) -> SymbolType {
    SymbolType::Variable(DataType::PRIMITIVE(p))
}

#[test]
fn scopes_shadow_and_close() {
    let mut tracker = ScopeTracker::new();
    tracker.add_symbol(&String::from("x"), var(PrimitiveDataType::F64));
    tracker.enter_scope();
    tracker.add_symbol(&String::from("x"), SymbolType::Parameter(DataType::NONE));
    assert!(matches!(tracker.find_symbol(&String::from("x")), Some(SymbolType::Parameter(_))));
    tracker.exit_scope();
    assert!(matches!(tracker.find_symbol(&String::from("x")), Some(SymbolType::Variable(_))));
    // the outermost scope is never closed
    tracker.exit_scope();
    assert!(tracker.find_symbol(&String::from("x")).is_some());
    assert!(tracker.find_symbol(&String::from("y")).is_none());
}

#[test]
fn return_types_settle_per_body() {
    let mut tracker = ScopeTracker::new();
    tracker.enter_scope();
    assert_eq!(tracker.get_return_type(), &DataType::NONE);
    tracker.add_return_type(&String::from("f"), &DataType::PRIMITIVE(PrimitiveDataType::I32));
    tracker.add_return_type(&String::from("f"), &DataType::PRIMITIVE(PrimitiveDataType::F64));
    assert!(matches!(tracker.get_return_type(), DataType::PRIMITIVE(PrimitiveDataType::F64)));
    tracker.enter_scope();
    assert_eq!(tracker.get_return_type(), &DataType::NONE);
}

#[test]
fn implementations_match_argument_types() {
    let body = ASTNode::STATEMENT_LIST(vec![]);
    let params = vec![ASTNode::PARAMETER { identifier: Box::new(ASTNode::IDENTIFIER(String::from("a"))), datatype: Box::new(None) }];
    let mut tracker = FunctionTracker::new(params, None, body);
    assert!(tracker.match_function(&vec![DataType::NONE]).is_none());
    let name = tracker.create_implementation(
        String::from("f"),
        vec![String::from("a")],
        vec![DataType::POINTER(Box::new(DataType::NONE))],
        DataType::NONE,
        ASTNode::STATEMENT_LIST(vec![]),
    );
    assert_eq!(name, "f:0");
    let name = tracker.create_implementation(
        String::from("f"),
        vec![String::from("a")],
        vec![DataType::PRIMITIVE(PrimitiveDataType::F64)],
        DataType::PRIMITIVE(PrimitiveDataType::F64),
        ASTNode::STATEMENT_LIST(vec![]),
    );
    assert_eq!(name, "f:1");
    assert_eq!(tracker.get_implementations().len(), 2);
    // all primitives compare equal on the VM
    let found = tracker.match_function(&vec![DataType::PRIMITIVE(PrimitiveDataType::I8)]).unwrap();
    assert_eq!(found.0, "f:1");
    let found = tracker.match_function(&vec![DataType::POINTER(Box::new(DataType::NONE))]).unwrap();
    assert_eq!(found.0, "f:0");
    // arguments are compared only as far as both lists go
    assert_eq!(tracker.match_function(&vec![]).unwrap().0, "f:0");
}

#[test]
fn implementation_accessors() {
    let imp = FunctionImplementation::new(
        String::from("g:0"),
        vec![String::from("x")],
        vec![DataType::NONE],
        DataType::NONE,
        ASTNode::STATEMENT_LIST(vec![]),
    );
    assert_eq!(imp.get_name(), "g:0");
    assert_eq!(imp.get_parameters(), &vec![String::from("x")]);
    assert!(imp.matches_arguments(&vec![DataType::NONE, DataType::NONE]));
    assert!(!imp.matches_arguments(&vec![DataType::PRIMITIVE(PrimitiveDataType::F64)]));
    assert!(matches!(imp.get_body(), ASTNode::STATEMENT_LIST(_)));
    assert!(matches!(imp.get_return_type(), DataType::NONE));
}
