//! The intermediate model of the compiler: data types, qualifiers, operators,
//! literals, scopes and symbols.
pub mod datatype;
pub mod qualifiers;
pub mod operators;
pub mod literals;
pub mod scope;
pub mod environment_symbol_context;
pub mod symbol_table;
pub mod scope_tracker;
pub mod ast_node;
