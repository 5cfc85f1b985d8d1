//! The nodes of the abstract syntax tree.
use vstd::prelude::*;
use crate::ast::literals::Literal;
use crate::ast::operators::{UnaryOperation, BinaryOperation};
use crate::ast::scope::ScopeId;

verus! {

/// A node of the abstract syntax tree: a statement or an expression.
#[allow(non_camel_case_types)]
#[allow(inconsistent_fields)]
#[derive(Debug)]
pub enum ASTNode {
    /// A name of a variable, function or constant.
    IDENTIFIER(String),
    /// A constant in an expression.
    LITERAL(Literal),
    /// An operation on one argument.
    UNARY_OP { op: UnaryOperation, expression: Box<ASTNode> },
    /// An operation on two arguments.
    BINARY_OP { op: BinaryOperation, lhs: Box<ASTNode>, rhs: Box<ASTNode> },
    /// `let <identifier> (: <datatype>)? = <expression>;`
    CONSTRUCT { identifier: Box<ASTNode>, datatype: Box<Option<ASTNode>>, expression: Box<ASTNode> },
    /// Declares a variable of the host environment.
    EXTERN { identifier: Box<ASTNode> },
    /// `<identifier> = <expression>;`
    ASSIGNMENT { identifier: Box<ASTNode>, expression: Box<ASTNode> },
    /// `print <expression>;`
    PRINT { expression: Box<ASTNode> },
    /// `return <expression>;`
    RETURN { expression: Box<ASTNode> },
    /// `if <condition> { ... } (else { ... })?`
    BRANCH { condition: Box<ASTNode>, if_branch: Box<ASTNode>, else_branch: Box<Option<ASTNode>> },
    /// `while <condition> { ... }`
    WHILE_LOOP { condition: Box<ASTNode>, body: Box<ASTNode> },
    /// `for (<initialization>; <condition>; <advancement>) { ... }`
    FOR_LOOP {
        initialization: Box<ASTNode>,
        condition: Box<ASTNode>,
        advancement: Box<ASTNode>,
        body: Box<ASTNode>,
    },
    /// `<identifier> (: <datatype>)?` in a function definition.
    PARAMETER { identifier: Box<ASTNode>, datatype: Box<Option<ASTNode>> },
    /// `fn <identifier>(<parameters>) (: <return_type>)? { ... }`
    FUNCTION { identifier: Box<ASTNode>, parameters: Vec<ASTNode>, return_type: Box<ASTNode>, body: Box<ASTNode> },
    /// `<identifier>(<arguments>)`
    FUNC_CALL { identifier: Box<ASTNode>, arguments: Vec<ASTNode> },
    /// Statements run one after the other.
    STATEMENT_LIST(Vec<ASTNode>),
    /// `{ ... }`: the inner statements share one scope.
    SCOPE_BLOCK { inner: Box<ASTNode>, scope: ScopeId },
}

/// The optional node, as a sequence of zero or one nodes.
pub open spec fn optional_node(node: Option<ASTNode>) -> Seq<ASTNode> {
    match node {
        Some(n) => seq![n],
        None => Seq::empty(),
    }
}

/// The direct children of a node, in source order.
pub open spec fn spec_children(node: ASTNode) -> Seq<ASTNode> {
    match node {
        ASTNode::IDENTIFIER(_) => Seq::empty(),
        ASTNode::LITERAL(_) => Seq::empty(),
        ASTNode::UNARY_OP { expression, .. } => seq![*expression],
        ASTNode::BINARY_OP { lhs, rhs, .. } => seq![*lhs, *rhs],
        ASTNode::CONSTRUCT { identifier, datatype, expression } => seq![*identifier] + optional_node(*datatype)
            + seq![*expression],
        ASTNode::EXTERN { identifier } => seq![*identifier],
        ASTNode::ASSIGNMENT { identifier, expression } => seq![*identifier, *expression],
        ASTNode::PRINT { expression } => seq![*expression],
        ASTNode::RETURN { expression } => seq![*expression],
        ASTNode::BRANCH { condition, if_branch, else_branch } => seq![*condition, *if_branch] + optional_node(
            *else_branch,
        ),
        ASTNode::WHILE_LOOP { condition, body } => seq![*condition, *body],
        ASTNode::FOR_LOOP { initialization, condition, advancement, body } => seq![
            *initialization,
            *condition,
            *advancement,
            *body,
        ],
        ASTNode::PARAMETER { identifier, datatype } => seq![*identifier] + optional_node(*datatype),
        ASTNode::FUNCTION { identifier, parameters, return_type, body } => seq![*identifier] + parameters@ + seq![
            *return_type,
            *body,
        ],
        ASTNode::FUNC_CALL { identifier, arguments } => seq![*identifier] + arguments@,
        ASTNode::STATEMENT_LIST(statements) => statements@,
        ASTNode::SCOPE_BLOCK { inner, .. } => seq![*inner],
    }
}

/// Appends every node of a list to the output.
fn push_all<'a>(output: &mut Vec<&'a ASTNode>, nodes: &'a Vec<ASTNode>)
    ensures
        final(output)@.map_values(|c: &ASTNode| *c) == old(output)@.map_values(|c: &ASTNode| *c) + nodes@,
{
    let ghost start = output@.map_values(|c: &ASTNode| *c);
    let mut i: usize = 0;
    while i < nodes.len()
        invariant
            i <= nodes@.len(),
            output@.map_values(|c: &ASTNode| *c) == start + nodes@.take(i as int),
        decreases nodes@.len() - i,
    {
        let ghost before = output@;
        let node = &nodes[i];
        output.push(node);
        assert(output@ == before.push(node));
        assert(nodes@.take(i + 1) =~= nodes@.take(i as int).push(nodes@[i as int]));
        assert(output@.map_values(|c: &ASTNode| *c) =~= before.map_values(|c: &ASTNode| *c).push(*node));
        i = i + 1;
    }
    assert(nodes@.take(nodes@.len() as int) =~= nodes@);
}

/// Appends an optional node to the output when it is present.
fn push_optional<'a>(output: &mut Vec<&'a ASTNode>, node: &'a Option<ASTNode>)
    ensures
        final(output)@.map_values(|c: &ASTNode| *c) == old(output)@.map_values(|c: &ASTNode| *c) + optional_node(*node),
{
    let ghost start = output@.map_values(|c: &ASTNode| *c);
    match node {
        Some(n) => {
            output.push(n);
            assert(output@.map_values(|c: &ASTNode| *c) =~= start + optional_node(*node));
        },
        None => {
            assert(output@.map_values(|c: &ASTNode| *c) =~= start + optional_node(*node));
        },
    }
}

/// Appends one node to the output.
fn push_one<'a>(output: &mut Vec<&'a ASTNode>, node: &'a ASTNode)
    ensures
        final(output)@.map_values(|c: &ASTNode| *c) == old(output)@.map_values(|c: &ASTNode| *c).push(*node),
{
    let ghost start = output@.map_values(|c: &ASTNode| *c);
    output.push(node);
    assert(output@.map_values(|c: &ASTNode| *c) =~= start.push(*node));
}

impl ASTNode {
    /// The direct children of the node, in source order. Useful to search
    /// the tree without caring for the nodes around the ones sought.
    pub fn children(&self) -> (r: Vec<&ASTNode>)
        ensures
            r@.map_values(|c: &ASTNode| *c) == spec_children(*self),
    {
        let mut output: Vec<&ASTNode> = Vec::new();
        assert(output@.map_values(|c: &ASTNode| *c) =~= Seq::<ASTNode>::empty());
        match self {
            ASTNode::IDENTIFIER(_) => {},
            ASTNode::LITERAL(_) => {},
            ASTNode::UNARY_OP { op: _, expression } => {
                push_one(&mut output, &**expression);
            },
            ASTNode::BINARY_OP { op: _, lhs, rhs } => {
                push_one(&mut output, &**lhs);
                push_one(&mut output, &**rhs);
            },
            ASTNode::CONSTRUCT { identifier, datatype, expression } => {
                push_one(&mut output, &**identifier);
                push_optional(&mut output, &**datatype);
                push_one(&mut output, &**expression);
            },
            ASTNode::EXTERN { identifier } => {
                push_one(&mut output, &**identifier);
            },
            ASTNode::ASSIGNMENT { identifier, expression } => {
                push_one(&mut output, &**identifier);
                push_one(&mut output, &**expression);
            },
            ASTNode::PRINT { expression } => {
                push_one(&mut output, &**expression);
            },
            ASTNode::RETURN { expression } => {
                push_one(&mut output, &**expression);
            },
            ASTNode::BRANCH { condition, if_branch, else_branch } => {
                push_one(&mut output, &**condition);
                push_one(&mut output, &**if_branch);
                push_optional(&mut output, &**else_branch);
            },
            ASTNode::WHILE_LOOP { condition, body } => {
                push_one(&mut output, &**condition);
                push_one(&mut output, &**body);
            },
            ASTNode::FOR_LOOP { initialization, condition, advancement, body } => {
                push_one(&mut output, &**initialization);
                push_one(&mut output, &**condition);
                push_one(&mut output, &**advancement);
                push_one(&mut output, &**body);
            },
            ASTNode::PARAMETER { identifier, datatype } => {
                push_one(&mut output, &**identifier);
                push_optional(&mut output, &**datatype);
            },
            ASTNode::FUNCTION { identifier, parameters, return_type, body } => {
                push_one(&mut output, &**identifier);
                push_all(&mut output, parameters);
                push_one(&mut output, &**return_type);
                push_one(&mut output, &**body);
            },
            ASTNode::FUNC_CALL { identifier, arguments } => {
                push_one(&mut output, &**identifier);
                push_all(&mut output, arguments);
            },
            ASTNode::STATEMENT_LIST(statements) => {
                push_all(&mut output, statements);
            },
            ASTNode::SCOPE_BLOCK { inner, scope: _ } => {
                push_one(&mut output, &**inner);
            },
        }
        output
    }

    /// The name of an identifier node; `None` for any other node.
    pub fn identifier_name(&self) -> (r: Option<String>)
        ensures
            match *self {
                ASTNode::IDENTIFIER(name) => r matches Some(n) && n@ == name@,
                _ => r is None,
            },
    {
        match self {
            ASTNode::IDENTIFIER(name) => Some(name.clone()),
            _ => None,
        }
    }
}

} // verus!
