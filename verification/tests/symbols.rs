use barracuda::ast::symbol_table::{Symbol, SymbolScope, SymbolTable, SymbolType};
use barracuda::ast::scope_tracker::ScopeTracker;
use barracuda::ast::scope::{ScopeId, ScopeIdGenerator};
use barracuda::ast::datatype::{DataType, PrimitiveDataType};

fn f64_var() -> SymbolType {
    SymbolType::Variable(DataType::PRIMITIVE(PrimitiveDataType::F64))
}

fn array_var(len: usize) -> SymbolType {
    SymbolType::Variable(DataType::ARRAY(Box::new(DataType::PRIMITIVE(PrimitiveDataType::F64)), len))
}

#[test]
fn symbol_accessors() {
    let s = Symbol::new(String::from("x"), f64_var());
    assert_eq!(s.identifier(), "x");
    assert_eq!(s.scope_id(), ScopeId::global());
    assert!(s.is_variable());
    assert!(!s.is_array());
    assert_eq!(s.array_length(), 0);
    assert_eq!(s.unique_id(), "0:x");
    let a = Symbol::new(String::from("grid"), SymbolType::Variable(DataType::ARRAY(Box::new(DataType::ARRAY(Box::new(DataType::PRIMITIVE(PrimitiveDataType::F64)), 3)), 4)));
    assert!(a.is_array());
    assert_eq!(a.array_length(), 12);
    let p = Symbol::new(String::from("p"), SymbolType::Parameter(DataType::NONE));
    assert!(!p.is_variable());
    assert_eq!(p.array_length(), 0);
    match p.symbol_type() {
        SymbolType::Parameter(DataType::NONE) => {}
        other => panic!("unexpected {:?}", other),
    }
}

#[test]
fn scope_refuses_a_second_declaration() {
    let mut scope = SymbolScope::new(ScopeId::new(3), Some(ScopeId::global()), false);
    assert!(scope.add_symbol(Symbol::new(String::from("x"), f64_var())));
    assert!(!scope.add_symbol(Symbol::new(String::from("x"), f64_var())));
    assert!(scope.add_symbol(Symbol::new(String::from("y"), f64_var())));
    let y = scope.get_symbol(&String::from("y")).unwrap();
    assert_eq!(y.scope_id(), ScopeId::new(3));
    assert_eq!(y.unique_id(), "3:y");
    assert!(scope.get_symbol(&String::from("z")).is_none());
    assert_eq!(scope.parent(), Some(ScopeId::global()));
}

/// let x = 0; { let x = 2; print(x) -> the inner x } print(x) -> the outer x
#[test]
fn innermost_declaration_is_found() {
    let mut table = SymbolTable::new();
    table.generate_new_scope(ScopeId::global(), ScopeId::new(1), true);
    table.generate_new_scope(ScopeId::new(1), ScopeId::new(2), false);
    assert!(table.add_symbol(ScopeId::new(1), Symbol::new(String::from("x"), f64_var())));
    assert!(table.add_symbol(ScopeId::new(2), Symbol::new(String::from("x"), f64_var())));
    let x = String::from("x");
    assert_eq!(table.find_symbol(ScopeId::new(2), &x).unwrap().scope_id(), ScopeId::new(2));
    assert_eq!(table.find_symbol(ScopeId::new(1), &x).unwrap().scope_id(), ScopeId::new(1));
    assert_eq!(table.parent_of(ScopeId::new(2)), ScopeId::new(1));
    assert_eq!(table.parent_of(ScopeId::new(9)), ScopeId::global());
    assert_eq!(table.entry_scope(), ScopeId::global());
}

/// let x = 0 at the top level; { let x = 2; print(x) -> '2' } print(x) -> '0'
#[test]
fn inner_declaration_shadows_global() {
    let mut table = SymbolTable::new();
    table.generate_new_scope(ScopeId::global(), ScopeId::new(1), false);
    assert!(table.add_symbol(ScopeId::global(), Symbol::new(String::from("x"), f64_var())));
    assert!(table.add_symbol(ScopeId::new(1), Symbol::new(String::from("x"), f64_var())));
    let x = String::from("x");
    assert_eq!(table.find_symbol(ScopeId::new(1), &x).unwrap().scope_id(), ScopeId::new(1));
    assert_eq!(table.find_symbol(ScopeId::global(), &x).unwrap().scope_id(), ScopeId::global());
}

#[test]
fn subroutine_hides_enclosing_scope_but_not_globals() {
    let mut table = SymbolTable::new();
    table.generate_new_scope(ScopeId::global(), ScopeId::new(1), false);
    table.generate_new_scope(ScopeId::new(1), ScopeId::new(2), true);
    table.generate_new_scope(ScopeId::new(2), ScopeId::new(3), false);
    assert!(table.add_symbol(ScopeId::new(1), Symbol::new(String::from("a"), f64_var())));
    assert!(table.add_symbol(ScopeId::global(), Symbol::new(String::from("g"), f64_var())));
    assert!(table.add_symbol(ScopeId::new(2), Symbol::new(String::from("b"), f64_var())));
    assert!(table.find_symbol(ScopeId::new(3), &String::from("a")).is_none());
    assert_eq!(table.find_symbol(ScopeId::new(3), &String::from("b")).unwrap().scope_id(), ScopeId::new(2));
    assert_eq!(table.find_symbol(ScopeId::new(3), &String::from("g")).unwrap().scope_id(), ScopeId::global());
    // a local declaration shadows the global one
    assert!(table.add_symbol(ScopeId::new(3), Symbol::new(String::from("g"), f64_var())));
    assert_eq!(table.find_symbol(ScopeId::new(3), &String::from("g")).unwrap().scope_id(), ScopeId::new(3));
    assert_eq!(table.find_symbol(ScopeId::new(2), &String::from("g")).unwrap().scope_id(), ScopeId::global());
    // an unknown scope only sees globals
    assert!(table.find_symbol(ScopeId::new(42), &String::from("b")).is_none());
    assert!(table.find_symbol(ScopeId::new(42), &String::from("g")).is_some());
}

#[test]
fn scope_with_unknown_parent_is_not_created() {
    let mut table = SymbolTable::new();
    table.generate_new_scope(ScopeId::new(7), ScopeId::new(8), false);
    assert_eq!(table.parent_of(ScopeId::new(8)), ScopeId::global());
    assert!(table.find_symbol(ScopeId::new(8), &String::from("x")).is_none());
}

#[test]
fn scope_id_generator_counts_up() {
    let mut generator = ScopeIdGenerator::new();
    assert_eq!(generator.next(), Some(ScopeId::new(1)));
    assert_eq!(generator.next(), Some(ScopeId::new(2)));
    let mut id = ScopeId::default();
    id.set(ScopeId::new(5));
    assert_eq!(id, ScopeId::new(5));
}

/// let a = 16;     // localvar_id = 0
/// let b = 32;     // localvar_id = 1
/// if a > 0 {
///     let c = 4;  // localvar_id = 2
///     let d = 2;  // localvar_id = 3
/// } else {
///     let e = 8;  // localvar_id = 2
/// }
/// let f = 64;     // localvar_id = 2
#[test]
fn local_ids_are_reused_after_a_scope_ends() {
    let mut table = SymbolTable::new();
    table.generate_new_scope(ScopeId::global(), ScopeId::new(1), false);
    table.generate_new_scope(ScopeId::new(1), ScopeId::new(2), false);
    table.generate_new_scope(ScopeId::new(1), ScopeId::new(3), false);
    for (scope, name) in [(1, "a"), (1, "b"), (2, "c"), (2, "d"), (3, "e"), (1, "f")] {
        assert!(table.add_symbol(ScopeId::new(scope), Symbol::new(String::from(name), f64_var())));
    }
    let mut tracker = ScopeTracker::new(table);
    tracker.enter_scope(ScopeId::new(1));
    tracker.add_symbol(String::from("a"));
    tracker.add_symbol(String::from("b"));
    tracker.enter_scope(ScopeId::new(2));
    tracker.add_symbol(String::from("c"));
    tracker.add_symbol(String::from("d"));
    assert_eq!(tracker.get_local_id(&String::from("c")), Some(2));
    assert_eq!(tracker.get_local_id(&String::from("d")), Some(3));
    assert_eq!(tracker.exit_scope(), 2);
    tracker.enter_scope(ScopeId::new(3));
    tracker.add_symbol(String::from("e"));
    assert_eq!(tracker.get_local_id(&String::from("e")), Some(2));
    assert_eq!(tracker.exit_scope(), 1);
    tracker.add_symbol(String::from("f"));
    assert_eq!(tracker.get_local_id(&String::from("a")), Some(0));
    assert_eq!(tracker.get_local_id(&String::from("b")), Some(1));
    assert_eq!(tracker.get_local_id(&String::from("f")), Some(2));
    assert!(tracker.find_symbol(&String::from("c")).is_none());
}

#[test]
fn symbols_are_found_only_once_declared() {
    let mut table = SymbolTable::new();
    table.generate_new_scope(ScopeId::global(), ScopeId::new(1), false);
    assert!(table.add_symbol(ScopeId::new(1), Symbol::new(String::from("a"), f64_var())));
    assert!(table.add_symbol(ScopeId::new(1), Symbol::new(String::from("b"), f64_var())));
    let mut tracker = ScopeTracker::new(table);
    tracker.enter_scope(ScopeId::new(1));
    tracker.add_symbol(String::from("a"));
    assert!(tracker.find_symbol(&String::from("a")).is_some());
    assert!(tracker.find_symbol(&String::from("b")).is_none());
    assert!(tracker.get_local_id(&String::from("b")).is_none());
    assert!(ScopeTracker::default().find_symbol(&String::from("a")).is_none());
}

#[test]
fn arrays_and_parameters_get_their_own_ids() {
    let mut table = SymbolTable::new();
    table.generate_new_scope(ScopeId::global(), ScopeId::new(1), true);
    assert!(table.add_symbol(ScopeId::new(1), Symbol::new(String::from("p"), SymbolType::Parameter(DataType::NONE))));
    assert!(table.add_symbol(ScopeId::new(1), Symbol::new(String::from("q"), SymbolType::Parameter(DataType::NONE))));
    assert!(table.add_symbol(ScopeId::new(1), Symbol::new(String::from("arr"), array_var(5))));
    assert!(table.add_symbol(ScopeId::new(1), Symbol::new(String::from("arr2"), array_var(2))));
    let mut tracker = ScopeTracker::new(table);
    tracker.enter_scope(ScopeId::new(1));
    for name in ["p", "q", "arr", "arr2"] {
        tracker.add_symbol(String::from(name));
    }
    assert_eq!(tracker.get_param_id(&String::from("p")), Some(0));
    assert_eq!(tracker.get_param_id(&String::from("q")), Some(1));
    assert_eq!(tracker.get_array_id(&String::from("arr")), Some(0));
    assert_eq!(tracker.get_array_id(&String::from("arr2")), Some(5));
    assert_eq!(tracker.get_local_id(&String::from("arr2")), Some(1));
    assert_eq!(tracker.get_local_id(&String::from("p")), None);
}

#[test]
fn symbols_in_scope_include_enclosing_scopes_first() {
    let mut table = SymbolTable::new();
    table.generate_new_scope(ScopeId::global(), ScopeId::new(1), false);
    table.generate_new_scope(ScopeId::new(1), ScopeId::new(2), false);
    table.generate_new_scope(ScopeId::new(2), ScopeId::new(3), true);
    assert!(table.add_symbol(ScopeId::global(), Symbol::new(String::from("g"), f64_var())));
    assert!(table.add_symbol(ScopeId::new(1), Symbol::new(String::from("a"), f64_var())));
    assert!(table.add_symbol(ScopeId::new(2), Symbol::new(String::from("b"), f64_var())));
    assert!(table.add_symbol(ScopeId::new(2), Symbol::new(String::from("c"), f64_var())));
    assert!(table.add_symbol(ScopeId::new(3), Symbol::new(String::from("d"), f64_var())));
    let names: Vec<String> = table.get_symbols_in_scope(ScopeId::new(2)).iter().map(|s| s.identifier().clone()).collect();
    assert_eq!(names, vec!["g", "a", "b", "c"]);
    let names: Vec<String> = table.get_symbols_in_scope(ScopeId::new(3)).iter().map(|s| s.identifier().clone()).collect();
    assert_eq!(names, vec!["d"]);
    assert!(table.get_symbols_in_scope(ScopeId::new(9)).is_empty());
}
