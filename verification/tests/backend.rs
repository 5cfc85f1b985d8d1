use barracuda::backend::scope::BarracudaScope;
use barracuda::backend::symbols::{BarracudaSymbol, SymbolType};
use barracuda::backend::program_code_builder::BarracudaProgramCodeBuilder;
use barracuda::instructions::BarracudaInstructions::{GOTO, GOTO_IF, VALUE, OP};
use barracuda::ops::BarracudaOperators::FIXED;
use barracuda::ops::FixedBarracudaOperators::{ADD, NULL, PRINTFF};

fn symbol(name: &str, mutable: bool, id: usize) -> BarracudaSymbol {
    BarracudaSymbol { name: String::from(name), symbol_type: SymbolType::F64, mutable, scope_id: id }
}

#[test]
fn symbol_type_names() {
    assert!(matches!(SymbolType::from(String::from(" F64 ")), SymbolType::F64));
    assert!(matches!(SymbolType::from(String::from("bool")), SymbolType::U8));
    assert!(matches!(SymbolType::from(String::from("s16")), SymbolType::S16));
    assert!(SymbolType::try_from_name(String::from("i32")).is_none());
}

#[test]
fn inner_level_shadows_and_is_dropped() {
    let mut scope = BarracudaScope::new();
    scope.add_level();
    scope.add_symbol(symbol("x", true, scope.next_mutable_id()));
    scope.add_level();
    scope.add_symbol(symbol("x", false, 7));
    assert_eq!(scope.get_symbol(&String::from("x")).unwrap().scope_id, 7);
    scope.remove_level();
    let x = scope.get_symbol(&String::from("x")).unwrap();
    assert_eq!(x.scope_id, 0);
    assert!(x.mutable);
    assert!(scope.get_symbol(&String::from("y")).is_none());
}

#[test]
fn mutable_ids_keep_growing() {
    let mut scope = BarracudaScope::new();
    scope.add_level();
    scope.add_symbol(symbol("a", true, scope.next_mutable_id()));
    scope.add_level();
    scope.add_symbol(symbol("b", true, scope.next_mutable_id()));
    scope.add_symbol(symbol("c", false, 0));
    assert_eq!(scope.next_mutable_id(), 2);
    scope.remove_level();
    assert_eq!(scope.next_mutable_id(), 2);
    assert_eq!(scope.scope_total_mutable, 2);
    assert_eq!(scope.get_symbol(&String::from("b")).map(|s| s.scope_id), None);
}

#[test]
fn redeclaring_in_a_level_replaces() {
    let mut scope = BarracudaScope::new();
    scope.add_level();
    scope.add_symbol(symbol("x", true, 0));
    scope.add_symbol(symbol("x", true, 1));
    assert_eq!(scope.get_symbol(&String::from("x")).unwrap().scope_id, 1);
    scope.remove_level();
    assert!(scope.get_symbol(&String::from("x")).is_none());
}

#[test]
fn builder_resolves_labels_to_instruction_indices() {
    let mut builder = BarracudaProgramCodeBuilder::new();
    let end = builder.create_label();
    let start = builder.create_label();
    assert_eq!((end, start), (0, 1));
    builder.set_label(start);
    builder.emit_value(5);
    builder.comment(String::from("the jump"));
    builder.reference(end);
    builder.emit_instruction(GOTO_IF);
    builder.emit_op(PRINTFF);
    builder.reference(start);
    builder.emit_instruction(GOTO);
    builder.set_label(end);
    builder.emit_op(ADD);
    let code = builder.finalize();
    assert_eq!(code.instructions, vec![VALUE, VALUE, GOTO_IF, OP, VALUE, GOTO, OP]);
    assert_eq!(code.values, vec![5, 6, 0, 0, 0, 0, 0]);
    assert_eq!(code.operations, vec![FIXED(NULL), FIXED(NULL), FIXED(NULL), FIXED(PRINTFF), FIXED(NULL), FIXED(NULL), FIXED(ADD)]);
    assert_eq!(code.comments_at(1).unwrap(), &vec![String::from("the jump")]);
    assert_eq!(code.user_space_size, vec![0, 0]);
}

#[test]
fn builder_places_arrays_and_user_space() {
    let mut builder = BarracudaProgramCodeBuilder::new();
    builder.add_environment_variable();
    builder.add_environment_variable();
    builder.set_precision(64);
    builder.emit_array(3, 4, String::from("mut"));
    builder.emit_array(1, 2, String::from("const"));
    builder.emit_userspace(9, String::from("mut"));
    builder.emit_userspace(8, String::from("const"));
    let code = builder.finalize();
    assert_eq!(code.values, vec![5, 1]);
    assert_eq!(code.instructions, vec![VALUE, VALUE]);
    assert_eq!(code.user_space_size, vec![4, 2]);
    assert_eq!(code.mutable_user_space, vec![9]);
    assert_eq!(code.constant_user_space, vec![8]);
}

#[test]
fn header_values_come_first() {
    let mut builder = BarracudaProgramCodeBuilder::new();
    let l = builder.create_label();
    builder.reference(l);
    builder.set_label(l);
    builder.emit_instruction(GOTO);
    let code = builder.finalize_with_header(vec![10, 20]);
    assert_eq!(code.values, vec![10, 20, 3, 0]);
    assert_eq!(code.instructions, vec![VALUE, VALUE, VALUE, GOTO]);
}
