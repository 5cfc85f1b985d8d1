use barracuda::ast::ast_node::ASTNode;
use barracuda::ast::datatype::{DataType, PrimitiveDataType};
use barracuda::ast::qualifiers::Qualifier;
use barracuda::ast::environment_symbol_context::EnvironmentSymbolContext;
use barracuda::ast::literals::Literal;
use barracuda::ast::operators::BinaryOperation;
use barracuda::ast::scope::ScopeId;

fn ident(name: &str) -> Box<ASTNode> {
    Box::new(ASTNode::IDENTIFIER(String::from(name)))
}

#[test]
fn children_in_source_order() {
    let node = ASTNode::BINARY_OP { op: BinaryOperation::ADD, lhs: ident("x"), rhs: ident("y") };
    let children = node.children();
    assert_eq!(children.len(), 2);
    assert_eq!(children[0].identifier_name(), Some(String::from("x")));
    assert_eq!(children[1].identifier_name(), Some(String::from("y")));
    let construct = ASTNode::CONSTRUCT { identifier: ident("z"), datatype: Box::new(None), expression: Box::new(ASTNode::LITERAL(Literal::FLOAT(2.0f64.to_bits()))) };
    assert_eq!(construct.children().len(), 2);
    let typed = ASTNode::CONSTRUCT { identifier: ident("z"), datatype: Box::new(Some(*ident("f64"))), expression: Box::new(ASTNode::LITERAL(Literal::INTEGER(2))) };
    assert_eq!(typed.children().len(), 3);
    let function = ASTNode::FUNCTION {
        identifier: ident("add"),
        parameters: vec![ASTNode::PARAMETER { identifier: ident("a"), datatype: Box::new(None) }, ASTNode::PARAMETER { identifier: ident("b"), datatype: Box::new(None) }],
        return_type: ident("f64"),
        body: Box::new(ASTNode::SCOPE_BLOCK { inner: Box::new(ASTNode::STATEMENT_LIST(vec![])), scope: ScopeId::default() }),
    };
    assert_eq!(function.children().len(), 5);
    assert!(ASTNode::LITERAL(Literal::BOOL(true)).children().is_empty());
    assert_eq!(ASTNode::LITERAL(Literal::BOOL(true)).identifier_name(), None);
}

#[test]
fn datatype_names() {
    assert_eq!(PrimitiveDataType::parse(String::from(" F64 ")), Some(PrimitiveDataType::F64));
    assert_eq!(PrimitiveDataType::parse(String::from("bool")), Some(PrimitiveDataType::Bool));
    assert_eq!(PrimitiveDataType::parse(String::from("u8")), None);
    assert!(matches!(DataType::from_str(String::from("none")), DataType::NONE));
    assert!(matches!(DataType::from_str(String::from("I32")), DataType::PRIMITIVE(PrimitiveDataType::I32)));
    assert!(DataType::try_from_str(String::from("vec")).is_none());
    let nested = DataType::ARRAY(Box::new(DataType::ARRAY(Box::new(DataType::PRIMITIVE(PrimitiveDataType::F32)), 5)), 3);
    assert_eq!(DataType::get_array_length(&nested), 15);
    assert_eq!(DataType::get_array_length(&DataType::NONE), 1);
    assert_eq!(DataType::PRIMITIVE(PrimitiveDataType::F32), DataType::ENVIRONMENTVARIABLE(PrimitiveDataType::I8));
    assert_ne!(DataType::PRIMITIVE(PrimitiveDataType::F32), DataType::NONE);
    assert_ne!(nested, DataType::ARRAY(Box::new(DataType::PRIMITIVE(PrimitiveDataType::F32)), 3));
}

#[test]
fn qualifier_text() {
    assert_eq!(Qualifier::from_str(String::from(" MUT")), Qualifier::MUTABLE);
    assert_eq!(Qualifier::from_str(String::from("const")), Qualifier::CONSTANT);
    assert_eq!(Qualifier::from_str(String::from("anything")), Qualifier::CONSTANT);
    assert_eq!(Qualifier::MUTABLE.to_str(), "mut");
    assert_eq!(Qualifier::from_str(Qualifier::CONSTANT.to_str()), Qualifier::CONSTANT);
    assert_eq!(Qualifier::from_str(Qualifier::MUTABLE.to_str()), Qualifier::MUTABLE);
}

#[test]
fn environment_context_replaces_by_identifier() {
    let mut context = EnvironmentSymbolContext::new();
    assert!(!context.add_symbol(String::from("a"), 0, PrimitiveDataType::F64, Qualifier::MUTABLE, String::from("")));
    assert!(!context.add_symbol(String::from("b"), 1, PrimitiveDataType::I32, Qualifier::CONSTANT, String::from("*")));
    assert!(context.add_symbol(String::from("a"), 2, PrimitiveDataType::F32, Qualifier::CONSTANT, String::from("")));
    let copy = context.copy_addresses();
    assert_eq!(copy.len(), 2);
    let a = copy.iter().find(|e| e.0 == "a").unwrap();
    assert_eq!((a.1).0, 2);
    let all = context.into();
    assert_eq!(all.len(), 2);
}
