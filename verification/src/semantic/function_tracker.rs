//! The implementations generated for a function during semantic analysis.
use vstd::prelude::*;
use crate::ast::ast_node::ASTNode;
use crate::ast::datatype::{DataType, spec_type_eq};
use crate::text::{decimal, push_decimal, str_chars, chars_to_string};

verus! {

/// Whether argument types match parameter types, position by position over
/// the shorter of the two lists (as zipping them does).
pub open spec fn arguments_match(parameters: Seq<DataType>, arguments: Seq<DataType>) -> bool {
    forall|i: int| 0 <= i < parameters.len() && i < arguments.len() ==> spec_type_eq(#[trigger] parameters[i], arguments[i])
}

/// One implementation of a function for given parameter types.
#[derive(Debug)]
pub struct FunctionImplementation {
    name: String,
    parameter_names: Vec<String>,
    parameter_types: Vec<DataType>,
    return_type: DataType,
    body: ASTNode,
}

impl FunctionImplementation {
    /// The name of the implementation.
    pub closed spec fn spec_name(&self) -> Seq<char> {
        self.name@
    }

    /// The names of its parameters.
    pub closed spec fn spec_parameter_names(&self) -> Seq<String> {
        self.parameter_names@
    }

    /// The types of its parameters.
    pub closed spec fn spec_parameter_types(&self) -> Seq<DataType> {
        self.parameter_types@
    }

    /// Its return type.
    pub closed spec fn spec_return_type(&self) -> DataType {
        self.return_type
    }

    /// Its body.
    pub closed spec fn spec_body(&self) -> ASTNode {
        self.body
    }

    /// An implementation from its parts.
    pub fn new(
        name: String,
        parameter_names: Vec<String>,
        parameter_types: Vec<DataType>,
        return_type: DataType,
        body: ASTNode,
    ) -> (r: Self)
        ensures
            r.spec_name() == name@,
            r.spec_parameter_names() == parameter_names@,
            r.spec_parameter_types() == parameter_types@,
            r.spec_return_type() == return_type,
            r.spec_body() == body,
    {
        FunctionImplementation { name, parameter_names, parameter_types, return_type, body }
    }

    /// Whether the implementation accepts arguments of these types.
    pub fn matches_arguments(&self, arguments: &Vec<DataType>) -> (r: bool)
        ensures
            r == arguments_match(self.spec_parameter_types(), arguments@),
    {
        let mut i: usize = 0;
        while i < self.parameter_types.len() && i < arguments.len()
            invariant
                i <= self.parameter_types@.len(),
                i <= arguments@.len(),
                forall|j: int| 0 <= j < i ==> spec_type_eq(#[trigger] self.parameter_types@[j], arguments@[j]),
            decreases self.parameter_types@.len() - i,
        {
            if !self.parameter_types[i].equals(&arguments[i]) {
                return false;
            }
            i = i + 1;
        }
        true
    }

    /// The name of the implementation.
    pub fn get_name(&self) -> (r: String)
        ensures
            r@ == self.spec_name(),
    {
        self.name.clone()
    }

    /// The return type.
    pub fn get_return_type(&self) -> (r: DataType)
        ensures
            r == self.spec_return_type(),
    {
        self.return_type.clone()
    }

    /// The body.
    pub fn get_body(&self) -> (r: &ASTNode)
        ensures
            *r == self.spec_body(),
    {
        &self.body
    }

    /// The parameter names.
    pub fn get_parameters(&self) -> (r: &Vec<String>)
        ensures
            r@ == self.spec_parameter_names(),
    {
        &self.parameter_names
    }
}

/// Whether a node is a parameter that the tracker accepts: a `PARAMETER`
/// named by an identifier. The tree has no data-type node, so a parameter
/// that carries a type node is refused.
pub open spec fn accepted_parameter(node: ASTNode) -> bool {
    node matches ASTNode::PARAMETER { identifier, datatype } && (*identifier is IDENTIFIER) && (*datatype is None)
}

/// The name of an accepted parameter.
pub open spec fn parameter_name(node: ASTNode) -> Seq<char> {
    match node {
        ASTNode::PARAMETER { identifier, .. } => match *identifier {
            ASTNode::IDENTIFIER(name) => name@,
            _ => Seq::empty(),
        },
        _ => Seq::empty(),
    }
}

/// The name `"<name>:<index>"` of an implementation.
pub open spec fn implementation_name(name: Seq<char>, index: nat) -> Seq<char> {
    name + seq![':'] + decimal(index)
}

/// A function found during semantic analysis: its declared parameters and
/// body, and the implementations made for the argument types it is called with.
#[derive(Debug)]
pub struct FunctionTracker {
    parameter_names: Vec<String>,
    parameters: Vec<Option<DataType>>,
    return_type: Option<DataType>,
    body: ASTNode,
    implementations: Vec<FunctionImplementation>,
}

impl FunctionTracker {
    /// The parameter names.
    pub closed spec fn spec_parameter_names(&self) -> Seq<Seq<char>> {
        self.parameter_names@.map_values(|n: String| n@)
    }

    /// The declared parameter types (`None` when not declared).
    pub closed spec fn spec_parameters(&self) -> Seq<Option<DataType>> {
        self.parameters@
    }

    /// The declared return type.
    pub closed spec fn spec_return_type(&self) -> Option<DataType> {
        self.return_type
    }

    /// The body.
    pub closed spec fn spec_body(&self) -> ASTNode {
        self.body
    }

    /// The implementations made so far.
    pub closed spec fn spec_implementations(&self) -> Seq<FunctionImplementation> {
        self.implementations@
    }

    /// A tracker for a function definition with no implementation yet.
    pub fn new(parameters: Vec<ASTNode>, return_type: Option<ASTNode>, body: ASTNode) -> (r: Self)
        requires
            forall|i: int| 0 <= i < parameters@.len() ==> accepted_parameter(#[trigger] parameters@[i]),
            return_type is None,
        ensures
            r.spec_parameter_names() == parameters@.map_values(|p: ASTNode| parameter_name(p)),
            r.spec_parameters() == Seq::new(parameters@.len(), |i: int| None::<DataType>),
            r.spec_return_type() is None,
            r.spec_body() == body,
            r.spec_implementations() == Seq::<FunctionImplementation>::empty(),
    {
        let mut parameter_names: Vec<String> = Vec::new();
        let mut parameter_types: Vec<Option<DataType>> = Vec::new();
        let n = parameters.len();
        let mut i: usize = 0;
        while i < n
            invariant
                n == parameters@.len(),
                i <= n,
                forall|k: int| 0 <= k < parameters@.len() ==> accepted_parameter(#[trigger] parameters@[k]),
                parameter_names@.len() == i,
                parameter_types@.len() == i,
                forall|k: int| 0 <= k < i ==> (#[trigger] parameter_names@[k])@ == parameter_name(parameters@[k]),
                forall|k: int| 0 <= k < i ==> (#[trigger] parameter_types@[k]) is None,
            decreases n - i,
        {
            assert(accepted_parameter(parameters@[i as int]));
            match &parameters[i] {
                ASTNode::PARAMETER { identifier, datatype: _ } => match &**identifier {
                    ASTNode::IDENTIFIER(name) => {
                        parameter_names.push(name.clone());
                        parameter_types.push(None);
                    },
                    _ => {},
                },
                _ => {},
            }
            i = i + 1;
        }
        let r = FunctionTracker {
            parameter_names,
            parameters: parameter_types,
            return_type: None,
            body,
            implementations: Vec::new(),
        };
        assert(r.spec_parameter_names() =~= parameters@.map_values(|p: ASTNode| parameter_name(p)));
        assert(r.spec_parameters() =~= Seq::new(parameters@.len(), |i: int| None::<DataType>));
        r
    }

    /// The name and return type of the first implementation that accepts
    /// arguments of these types.
    pub fn match_function(&self, arguments: &Vec<DataType>) -> (r: Option<(String, DataType)>)
        ensures
            match r {
                Some((name, t)) => exists|i: int|
                    0 <= i < self.spec_implementations().len() && arguments_match(
                        (#[trigger] self.spec_implementations()[i]).spec_parameter_types(),
                        arguments@,
                    ) && (forall|j: int|
                        0 <= j < i ==> !arguments_match(
                            (#[trigger] self.spec_implementations()[j]).spec_parameter_types(),
                            arguments@,
                        )) && name@ == self.spec_implementations()[i].spec_name() && t
                        == self.spec_implementations()[i].spec_return_type(),
                None => forall|i: int|
                    0 <= i < self.spec_implementations().len() ==> !arguments_match(
                        (#[trigger] self.spec_implementations()[i]).spec_parameter_types(),
                        arguments@,
                    ),
            },
    {
        let mut i: usize = 0;
        while i < self.implementations.len()
            invariant
                i <= self.implementations@.len(),
                forall|j: int|
                    0 <= j < i ==> !arguments_match(
                        (#[trigger] self.implementations@[j]).spec_parameter_types(),
                        arguments@,
                    ),
            decreases self.implementations@.len() - i,
        {
            let implementation = &self.implementations[i];
            if implementation.matches_arguments(arguments) {
                let name = implementation.get_name();
                let t = implementation.get_return_type();
                assert(self.spec_implementations()[i as int] == *implementation);
                assert(forall|j: int|
                    0 <= j < i ==> !arguments_match(
                        (#[trigger] self.spec_implementations()[j]).spec_parameter_types(),
                        arguments@,
                    ));
                return Some((name, t));
            }
            i = i + 1;
        }
        None
    }

    /// The implementations made so far.
    pub fn get_implementations(&self) -> (r: &Vec<FunctionImplementation>)
        ensures
            r@ == self.spec_implementations(),
    {
        &self.implementations
    }

    /// Adds an implementation named `"<name>:<index>"`, its index being the
    /// number of implementations made before, and returns that name.
    pub fn create_implementation(
        &mut self,
        name: String,
        parameter_names: Vec<String>,
        parameter_types: Vec<DataType>,
        return_type: DataType,
        body: ASTNode,
    ) -> (r: String)
        ensures
            r@ == implementation_name(name@, old(self).spec_implementations().len()),
            final(self).spec_implementations().len() == old(self).spec_implementations().len() + 1,
            final(self).spec_implementations().drop_last() == old(self).spec_implementations(),
            final(self).spec_implementations().last().spec_name() == r@,
            final(self).spec_implementations().last().spec_parameter_names() == parameter_names@,
            final(self).spec_implementations().last().spec_parameter_types() == parameter_types@,
            final(self).spec_implementations().last().spec_return_type() == return_type,
            final(self).spec_implementations().last().spec_body() == body,
            final(self).spec_parameter_names() == old(self).spec_parameter_names(),
            final(self).spec_parameters() == old(self).spec_parameters(),
            final(self).spec_return_type() == old(self).spec_return_type(),
            final(self).spec_body() == old(self).spec_body(),
    {
        let mut chars = str_chars(name.as_str());
        chars.push(':');
        push_decimal(&mut chars, self.implementations.len() as u64);
        let full_name = chars_to_string(&chars);
        let implementation = FunctionImplementation::new(full_name, parameter_names, parameter_types, return_type, body);
        let implementation_name = implementation.get_name();
        self.implementations.push(implementation);
        assert(self.implementations@.drop_last() =~= old(self).implementations@);
        implementation_name
    }
}

} // verus!
