//! The bytecode generator: it walks the syntax tree of a program, keeps the
//! symbols in scope, and emits a linear program with labels that are
//! resolved into addresses at the end. Numbers are emitted as the bit
//! patterns of their double-precision values.
use vstd::prelude::*;
use crate::ast::ast_node::ASTNode;
use crate::ast::literals::Literal;
use crate::ast::operators::{UnaryOperation, BinaryOperation};
use crate::backend::scope::{BarracudaScope, levels_find, level_find, level_insert, distinct_names};
use crate::backend::symbols::{BarracudaSymbol, SymbolType, spec_symbol_type_from};
use crate::double_bits::{double_bits, integer_to_double_bits};
use crate::instructions::BarracudaInstructions;
use crate::ops::{BarracudaOperators, FixedBarracudaOperators};
use crate::program_code::{ProgramCode, null_operation};
use crate::text::string_push;

verus! {

/// One item of the linear program the generator emits.
#[derive(Debug)]
pub enum GenItem {
    /// A value loaded by a VALUE instruction (the bits of the number).
    Value(u64),
    /// An instruction.
    Instruction(BarracudaInstructions),
    /// An operation run by an OP instruction.
    Operation(BarracudaOperators),
    /// Marks the position of the next instruction under a label id.
    Label(u64),
    /// A VALUE instruction loading the position a label marks.
    Reference(u64),
    /// A comment; it takes no instruction.
    Comment(String),
}

/// An item without the text of its comment.
#[derive(Debug, Clone, Copy, PartialEq, Eq, Structural)]
pub enum ItemKind {
    Value(u64),
    Instruction(BarracudaInstructions),
    Operation(BarracudaOperators),
    Label(u64),
    Reference(u64),
    Comment,
}

/// What an item is, its comment text aside.
pub open spec fn item_kind(item: GenItem) -> ItemKind {
    match item {
        GenItem::Value(v) => ItemKind::Value(v),
        GenItem::Instruction(i) => ItemKind::Instruction(i),
        GenItem::Operation(o) => ItemKind::Operation(o),
        GenItem::Label(l) => ItemKind::Label(l),
        GenItem::Reference(l) => ItemKind::Reference(l),
        GenItem::Comment(_) => ItemKind::Comment,
    }
}

/// What the generator knows of a symbol: its name, whether it can be
/// assigned to, its id, and for a function its label and parameter count.
pub type SymbolKey = (Seq<char>, bool, usize, Option<(u64, nat)>);

/// The key of a symbol.
pub open spec fn symbol_key(s: BarracudaSymbol) -> SymbolKey {
    (s.name@, s.mutable, s.scope_id, match s.symbol_type {
        SymbolType::Function { func_label, func_params, .. } => Some((func_label, func_params@.len())),
        _ => None,
    })
}

/// The keys of the symbols of each level.
pub open spec fn keys_of(levels: Seq<Seq<BarracudaSymbol>>) -> Seq<Seq<SymbolKey>> {
    levels.map_values(|l: Seq<BarracudaSymbol>| l.map_values(|s: BarracudaSymbol| symbol_key(s)))
}

/// The last key of a level with the given name.
pub open spec fn key_level_find(level: Seq<SymbolKey>, name: Seq<char>) -> Option<SymbolKey>
    decreases level.len(),
{
    if level.len() == 0 {
        None
    } else if level.last().0 == name {
        Some(level.last())
    } else {
        key_level_find(level.drop_last(), name)
    }
}

/// The key a name denotes: that of the innermost level that declares it.
pub open spec fn key_levels_find(levels: Seq<Seq<SymbolKey>>, name: Seq<char>) -> Option<SymbolKey>
    decreases levels.len(),
{
    if levels.len() == 0 {
        None
    } else {
        match key_level_find(levels.last(), name) {
            Some(k) => Some(k),
            None => key_levels_find(levels.drop_last(), name),
        }
    }
}

/// A level after declaring a key in it: it replaces the key of the same
/// name, or is appended.
pub open spec fn key_insert(level: Seq<SymbolKey>, key: SymbolKey) -> Seq<SymbolKey> {
    if exists|i: int| 0 <= i < level.len() && (#[trigger] level[i]).0 == key.0 {
        let i = choose|i: int| 0 <= i < level.len() && (#[trigger] level[i]).0 == key.0;
        level.update(i, key)
    } else {
        level.push(key)
    }
}

/// The state of generation: the symbol keys by level, the number of mutable
/// symbols declared so far, the items emitted and the labels created.
pub type GenState = (Seq<Seq<SymbolKey>>, nat, Seq<ItemKind>, nat);

/// The state after one more item.
pub open spec fn emit(st: GenState, k: ItemKind) -> GenState {
    (st.0, st.1, st.2.push(k), st.3)
}

/// The value item of a whole number.
pub open spec fn number(n: nat) -> ItemKind {
    ItemKind::Value(double_bits(n) as u64)
}

/// The item of an operation.
pub open spec fn op_item(f: FixedBarracudaOperators) -> ItemKind {
    ItemKind::Operation(BarracudaOperators::FIXED(f))
}

/// The state after creating a label (its id is the label count before).
pub open spec fn with_label(st: GenState) -> GenState {
    (st.0, st.1, st.2, st.3 + 1)
}

/// The state after declaring a symbol in the innermost level; `None` when
/// there is no level or the count of mutable symbols would overflow.
pub open spec fn declare(st: GenState, key: SymbolKey) -> Option<GenState> {
    if st.0.len() == 0 || (key.1 && st.1 >= usize::MAX) {
        None
    } else {
        Some((st.0.drop_last().push(key_insert(st.0.last(), key)), st.1 + if key.1 { 1nat } else { 0nat }, st.2, st.3))
    }
}

/// The name of an identifier node.
pub open spec fn identifier_of(node: ASTNode) -> Option<Seq<char>> {
    match node {
        ASTNode::IDENTIFIER(name) => Some(name@),
        _ => None,
    }
}

/// The items of a binary operation.
pub open spec fn binary_items(o: BinaryOperation, st: GenState) -> GenState {
    match o {
        BinaryOperation::ADD => emit(st, op_item(FixedBarracudaOperators::ADD)),
        BinaryOperation::SUB => emit(st, op_item(FixedBarracudaOperators::SUB)),
        BinaryOperation::DIV => emit(st, op_item(FixedBarracudaOperators::DIV)),
        BinaryOperation::MUL => emit(st, op_item(FixedBarracudaOperators::MUL)),
        BinaryOperation::MOD => emit(st, op_item(FixedBarracudaOperators::FMOD)),
        BinaryOperation::POW => emit(st, op_item(FixedBarracudaOperators::POW)),
        BinaryOperation::EQUAL => emit(st, op_item(FixedBarracudaOperators::EQ)),
        BinaryOperation::NOT_EQUAL => emit(emit(st, op_item(FixedBarracudaOperators::EQ)), op_item(FixedBarracudaOperators::NOT)),
        BinaryOperation::GREATER_THAN => emit(st, op_item(FixedBarracudaOperators::GT)),
        BinaryOperation::LESS_THAN => emit(st, op_item(FixedBarracudaOperators::LT)),
        BinaryOperation::GREATER_EQUAL => emit(st, op_item(FixedBarracudaOperators::GTEQ)),
        BinaryOperation::LESS_EQUAL => emit(st, op_item(FixedBarracudaOperators::LTEQ)),
    }
}

/// How many children a node has in a list (statements or arguments).
pub open spec fn list_width(node: ASTNode) -> nat {
    match node {
        ASTNode::STATEMENT_LIST(s) => s@.len(),
        ASTNode::FUNC_CALL { arguments, .. } => arguments@.len(),
        _ => 0,
    }
}

/// The symbol type a parameter or return type names, if it names one.
pub open spec fn named_type(node: Option<ASTNode>) -> Option<SymbolType> {
    match node {
        None => Some(SymbolType::F64),
        Some(ASTNode::IDENTIFIER(name)) => spec_symbol_type_from(name@),
        Some(_) => None,
    }
}

/// The state after declaring the first `k` parameters of a function, each a
/// mutable symbol with the next id; `None` when a parameter is malformed or
/// names an unknown type.
pub open spec fn gen_params(params: Seq<ASTNode>, k: nat, st: GenState) -> Option<GenState>
    decreases k,
{
    if k == 0 || k > params.len() {
        if k == 0 { Some(st) } else { None }
    } else {
        match gen_params(params, (k - 1) as nat, st) {
            None => None,
            Some(s) => match params[k - 1] {
                ASTNode::PARAMETER { identifier, datatype } => match identifier_of(*identifier) {
                    Some(name) => if named_type(*datatype) is Some {
                        declare(s, (name, true, s.1 as usize, None))
                    } else {
                        None
                    },
                    None => None,
                },
                _ => None,
            },
        }
    }
}

/// What generating a node gives from a state: the state after its code, or
/// `None` where the generator cannot go on (an unknown or immutable
/// identifier, a malformed node, a node it has no code for, a call to
/// something that is no function or with the wrong number of arguments, or
/// a counter at its largest value).
pub open spec fn gen(node: ASTNode, st: GenState) -> Option<GenState>
    decreases node, list_width(node) + 1,
{
    match node {
        ASTNode::IDENTIFIER(name) => match key_levels_find(st.0, name@) {
            Some(k) => Some(emit(emit(st, number(k.2 as nat)), op_item(FixedBarracudaOperators::STK_READ))),
            None => None,
        },
        ASTNode::LITERAL(l) => match l {
            Literal::FLOAT(b) => Some(emit(st, ItemKind::Value(b))),
            Literal::INTEGER(v) => Some(emit(st, number(v as nat))),
            Literal::BOOL(b) => Some(emit(st, number(if b { 1nat } else { 0nat }))),
            Literal::PACKEDSTRING(_) => None,
        },
        ASTNode::UNARY_OP { op, expression } => match gen(*expression, st) {
            None => None,
            Some(s1) => match op {
                UnaryOperation::NOT => Some(emit(s1, op_item(FixedBarracudaOperators::NOT))),
                UnaryOperation::NEGATE => Some(emit(emit(s1, number(0)), op_item(FixedBarracudaOperators::SUB))),
                UnaryOperation::PTR_DEREF => None,
            },
        },
        ASTNode::BINARY_OP { op, lhs, rhs } => match gen(*lhs, st) {
            None => None,
            Some(s1) => match gen(*rhs, s1) {
                None => None,
                Some(s2) => Some(binary_items(op, s2)),
            },
        },
        ASTNode::CONSTRUCT { identifier, expression, .. } => match identifier_of(*identifier) {
            None => None,
            Some(name) => match gen(*expression, emit(st, number(st.1))) {
                None => None,
                Some(s2) => declare(
                    emit(s2, op_item(FixedBarracudaOperators::STK_WRITE)),
                    (name, true, st.1 as usize, None),
                ),
            },
        },
        ASTNode::ASSIGNMENT { identifier, expression } => match identifier_of(*identifier) {
            None => None,
            Some(name) => match key_levels_find(st.0, name) {
                None => None,
                Some(k) => if !k.1 {
                    None
                } else {
                    match gen(*expression, emit(st, number(k.2 as nat))) {
                        None => None,
                        Some(s2) => Some(emit(s2, op_item(FixedBarracudaOperators::STK_WRITE))),
                    }
                },
            },
        },
        ASTNode::PRINT { expression } => match gen(*expression, st) {
            None => None,
            Some(s1) => Some(
                emit(
                    emit(emit(s1, op_item(FixedBarracudaOperators::PRINTFF)), number(10)),
                    op_item(FixedBarracudaOperators::PRINTC),
                ),
            ),
        },
        ASTNode::RETURN { expression } => match gen(*expression, st) {
            None => None,
            Some(s1) => Some(
                emit(emit(s1, op_item(FixedBarracudaOperators::SWAP)), ItemKind::Instruction(BarracudaInstructions::GOTO)),
            ),
        },
        ASTNode::BRANCH { condition, if_branch, else_branch } => if st.3 >= u64::MAX {
            None
        } else {
            let if_end = st.3 as u64;
            match gen(*condition, with_label(st)) {
                None => None,
                Some(s1) => match gen(
                    *if_branch,
                    emit(emit(s1, ItemKind::Reference(if_end)), ItemKind::Instruction(BarracudaInstructions::GOTO_IF)),
                ) {
                    None => None,
                    Some(s2) => match *else_branch {
                        None => Some(emit(s2, ItemKind::Label(if_end))),
                        Some(e) => if s2.3 >= u64::MAX {
                            None
                        } else {
                            let else_end = s2.3 as u64;
                            match gen(
                                e,
                                emit(
                                    emit(
                                        emit(with_label(s2), ItemKind::Reference(else_end)),
                                        ItemKind::Instruction(BarracudaInstructions::GOTO),
                                    ),
                                    ItemKind::Label(if_end),
                                ),
                            ) {
                                None => None,
                                Some(s3) => Some(emit(s3, ItemKind::Label(else_end))),
                            }
                        },
                    },
                },
            }
        },
        ASTNode::WHILE_LOOP { condition, body } => if st.3 + 1 >= u64::MAX {
            None
        } else {
            let start = st.3 as u64;
            let exit = (st.3 + 1) as u64;
            match gen(*condition, emit(with_label(with_label(st)), ItemKind::Label(start))) {
                None => None,
                Some(s1) => match gen(
                    *body,
                    emit(emit(s1, ItemKind::Reference(exit)), ItemKind::Instruction(BarracudaInstructions::GOTO_IF)),
                ) {
                    None => None,
                    Some(s2) => Some(
                        emit(
                            emit(emit(s2, ItemKind::Reference(start)), ItemKind::Instruction(BarracudaInstructions::GOTO)),
                            ItemKind::Label(exit),
                        ),
                    ),
                },
            }
        },
        ASTNode::FOR_LOOP { initialization, condition, advancement, body } => if st.3 + 1 >= u64::MAX {
            None
        } else {
            let start = st.3 as u64;
            let exit = (st.3 + 1) as u64;
            match gen(*initialization, with_label(with_label(st))) {
                None => None,
                Some(s0) => match gen(*condition, emit(s0, ItemKind::Label(start))) {
                    None => None,
                    Some(s1) => match gen(
                        *body,
                        emit(emit(s1, ItemKind::Reference(exit)), ItemKind::Instruction(BarracudaInstructions::GOTO_IF)),
                    ) {
                        None => None,
                        Some(s2) => match gen(*advancement, s2) {
                            None => None,
                            Some(s3) => Some(
                                emit(
                                    emit(
                                        emit(s3, ItemKind::Reference(start)),
                                        ItemKind::Instruction(BarracudaInstructions::GOTO),
                                    ),
                                    ItemKind::Label(exit),
                                ),
                            ),
                        },
                    },
                },
            }
        },
        ASTNode::STATEMENT_LIST(stmts) => match gen_list(node, stmts@.len(), (st.0.push(Seq::empty()), st.1, st.2, st.3)) {
            None => None,
            Some(s1) => if s1.0.len() == 0 {
                None
            } else {
                Some((s1.0.drop_last(), s1.1, s1.2, s1.3))
            },
        },
        ASTNode::FUNCTION { identifier, parameters, return_type, body } => match identifier_of(*identifier) {
            None => None,
            Some(name) => {
                let s1: GenState = (st.0.push(Seq::empty()), st.1, st.2, st.3);
                let start = st.1;
                match gen_params(parameters@, parameters@.len(), s1) {
                    None => None,
                    Some(s2) => if named_type(Some(*return_type)) is None || identifier_of(*return_type) is None
                        || s2.3 + 1 >= u64::MAX {
                        None
                    } else {
                        let func_label = s2.3 as u64;
                        let func_end = (s2.3 + 1) as u64;
                        let s3 = emit(
                            emit(
                                emit(emit(with_label(with_label(s2)), ItemKind::Comment), ItemKind::Reference(func_end)),
                                ItemKind::Instruction(BarracudaInstructions::GOTO),
                            ),
                            ItemKind::Label(func_label),
                        );
                        match gen(*body, s3) {
                            None => None,
                            Some(s4) => {
                                let s5 = emit(
                                    emit(emit(s4, ItemKind::Instruction(BarracudaInstructions::GOTO)), ItemKind::Label(func_end)),
                                    ItemKind::Comment,
                                );
                                if s5.0.len() == 0 {
                                    None
                                } else {
                                    declare(
                                        (s5.0.drop_last(), s5.1, s5.2, s5.3),
                                        (name, false, start as usize, Some((func_label, parameters@.len()))),
                                    )
                                }
                            },
                        }
                    },
                }
            },
        },
        ASTNode::FUNC_CALL { identifier, arguments } => match identifier_of(*identifier) {
            None => None,
            Some(name) => match key_levels_find(st.0, name) {
                None => None,
                Some(k) => match k.3 {
                    None => None,
                    Some(f) => if f.1 != arguments@.len() || k.2 + arguments@.len() > usize::MAX {
                        None
                    } else {
                        match gen_list(node, arguments@.len(), emit(st, ItemKind::Comment)) {
                            None => None,
                            Some(s1) => if s1.3 >= u64::MAX {
                                None
                            } else {
                                let end = s1.3 as u64;
                                Some(
                                    emit(
                                        emit(
                                            emit(
                                                emit(emit(with_label(s1), ItemKind::Reference(end)), ItemKind::Reference(f.0)),
                                                ItemKind::Instruction(BarracudaInstructions::GOTO),
                                            ),
                                            ItemKind::Comment,
                                        ),
                                        ItemKind::Label(end),
                                    ),
                                )
                            },
                        }
                    },
                },
            },
        },
        _ => None,
    }
}

/// Generating the first `k` statements of a statement list, or the first
/// `k` arguments of a call (each stored into the parameter slot of the
/// called function that follows the previous one).
pub open spec fn gen_list(node: ASTNode, k: nat, st: GenState) -> Option<GenState>
    decreases node, k,
{
    match node {
        ASTNode::STATEMENT_LIST(stmts) => if k == 0 {
            Some(st)
        } else if k > stmts@.len() {
            None
        } else {
            match gen_list(node, (k - 1) as nat, st) {
                None => None,
                Some(s) => {
                    proof {
                        assert(decreases_to!(node => stmts));
                        assert(decreases_to!(stmts => stmts@));
                        assert(decreases_to!(stmts@ => stmts@[k - 1]));
                    }
                    gen(stmts@[k - 1], s)
                },
            }
        },
        ASTNode::FUNC_CALL { identifier, arguments } => if k == 0 {
            Some(st)
        } else if k > arguments@.len() {
            None
        } else {
            match gen_list(node, (k - 1) as nat, st) {
                None => None,
                Some(s) => {
                    proof {
                        assert(decreases_to!(node => arguments));
                        assert(decreases_to!(arguments => arguments@));
                        assert(decreases_to!(arguments@ => arguments@[k - 1]));
                    }
                    match gen(arguments@[k - 1], emit(s, number(call_slot(node, st, (k - 1) as nat)))) {
                        None => None,
                        Some(s2) => Some(emit(s2, op_item(FixedBarracudaOperators::STK_WRITE))),
                    }
                },
            }
        },
        _ => None,
    }
}

/// The parameter slot argument `i` of a call is stored into: the id of the
/// called function (found from the state before the arguments) plus `i`.
pub open spec fn call_slot(node: ASTNode, st: GenState, i: nat) -> nat {
    match node {
        ASTNode::FUNC_CALL { identifier, .. } => match identifier_of(*identifier) {
            Some(name) => match key_levels_find(st.0, name) {
                Some(k) => (k.2 + i) as nat,
                None => 0,
            },
            None => 0,
        },
        _ => 0,
    }
}

/// Looking a name up in a level's keys finds the key of the symbol that
/// looking it up in the level finds.
proof fn lemma_key_level_find(level: Seq<BarracudaSymbol>, name: Seq<char>)
    ensures
        key_level_find(level.map_values(|s: BarracudaSymbol| symbol_key(s)), name) == (match level_find(level, name) {
            Some(t) => Some(symbol_key(t)),
            None => None::<SymbolKey>,
        }),
    decreases level.len(),
{
    let keys = level.map_values(|s: BarracudaSymbol| symbol_key(s));
    if level.len() > 0 {
        assert(keys.drop_last() =~= level.drop_last().map_values(|s: BarracudaSymbol| symbol_key(s)));
        assert(keys.last() == symbol_key(level.last()));
        lemma_key_level_find(level.drop_last(), name);
    }
}

/// Looking a name up in the keys of the levels finds the key of the symbol
/// that looking it up in the levels finds.
proof fn lemma_key_levels_find(levels: Seq<Seq<BarracudaSymbol>>, name: Seq<char>)
    ensures
        key_levels_find(keys_of(levels), name) == (match levels_find(levels, name) {
            Some(t) => Some(symbol_key(t)),
            None => None::<SymbolKey>,
        }),
    decreases levels.len(),
{
    if levels.len() > 0 {
        assert(keys_of(levels).drop_last() =~= keys_of(levels.drop_last()));
        assert(keys_of(levels).last() == levels.last().map_values(|s: BarracudaSymbol| symbol_key(s)));
        lemma_key_level_find(levels.last(), name);
        lemma_key_levels_find(levels.drop_last(), name);
    }
}

/// Inserting a symbol into a level with distinct names, then taking keys,
/// is inserting its key into the level's keys.
proof fn lemma_key_insert(level: Seq<BarracudaSymbol>, symbol: BarracudaSymbol)
    requires
        distinct_names(level),
    ensures
        level_insert(level, symbol).map_values(|s: BarracudaSymbol| symbol_key(s)) == key_insert(
            level.map_values(|s: BarracudaSymbol| symbol_key(s)),
            symbol_key(symbol),
        ),
{
    let keys = level.map_values(|s: BarracudaSymbol| symbol_key(s));
    let key = symbol_key(symbol);
    if exists|i: int| 0 <= i < level.len() && (#[trigger] level[i]).name@ == symbol.name@ {
        let i = choose|i: int| 0 <= i < level.len() && (#[trigger] level[i]).name@ == symbol.name@;
        assert(keys[i].0 == key.0);
        let j = choose|j: int| 0 <= j < keys.len() && (#[trigger] keys[j]).0 == key.0;
        assert(keys[j] == symbol_key(level[j]));
        if i != j {
            if i < j {
                assert((level[i]).name@ != (level[j]).name@);
            } else {
                assert((level[j]).name@ != (level[i]).name@);
            }
        }
        assert(level.update(i, symbol).map_values(|s: BarracudaSymbol| symbol_key(s)) =~= keys.update(j, key));
    } else {
        assert forall|j: int| 0 <= j < keys.len() implies (#[trigger] keys[j]).0 != key.0 by {
            assert(keys[j] == symbol_key(level[j]));
        }
        assert(level.push(symbol).map_values(|s: BarracudaSymbol| symbol_key(s)) =~= keys.push(key));
    }
}

/// Symbols that carry the same data have the same key.
proof fn lemma_same_key(a: BarracudaSymbol, b: BarracudaSymbol)
    requires
        a.same(b),
    ensures
        symbol_key(a) == symbol_key(b),
{
}

/// The generator: the symbols in scope, the items emitted so far and the
/// number of labels created.
pub struct BarracudaBackend {
    scope: BarracudaScope,
    program_out: Vec<GenItem>,
    label_count: u64,
}

impl BarracudaBackend {
    /// The state of generation.
    pub closed spec fn state(&self) -> GenState {
        (
            keys_of(self.scope.levels()),
            self.scope.total_mutable(),
            self.program_out@.map_values(|i: GenItem| item_kind(i)),
            self.label_count as nat,
        )
    }

    /// The scope is well formed.
    pub closed spec fn wf(&self) -> bool {
        self.scope.wf()
    }

    /// A generator with no scope level, no item and no label.
    pub fn new() -> (r: Self)
        ensures
            r.wf(),
            r.state() == (Seq::<Seq<SymbolKey>>::empty(), 0nat, Seq::<ItemKind>::empty(), 0nat),
    {
        let r = BarracudaBackend { scope: BarracudaScope::new(), program_out: Vec::new(), label_count: 0 };
        assert(keys_of(r.scope.levels()) =~= Seq::<Seq<SymbolKey>>::empty());
        assert(r.program_out@.map_values(|i: GenItem| item_kind(i)) =~= Seq::<ItemKind>::empty());
        r
    }

    /// Appends an item.
    fn emit(&mut self, item: GenItem)
        requires
            old(self).wf(),
        ensures
            final(self).wf(),
            final(self).state() == emit(old(self).state(), item_kind(item)),
    {
        let ghost k = item_kind(item);
        self.program_out.push(item);
        assert(self.program_out@.map_values(|i: GenItem| item_kind(i)) =~= old(self).program_out@.map_values(
            |i: GenItem| item_kind(i),
        ).push(k));
    }

    /// Appends the value item of a whole number.
    fn emit_number(&mut self, n: u64)
        requires
            old(self).wf(),
        ensures
            final(self).wf(),
            final(self).state() == emit(old(self).state(), number(n as nat)),
    {
        let bits = integer_to_double_bits(n);
        self.emit(GenItem::Value(bits));
    }

    /// Appends the item of an operation.
    fn emit_op(&mut self, f: FixedBarracudaOperators)
        requires
            old(self).wf(),
        ensures
            final(self).wf(),
            final(self).state() == emit(old(self).state(), op_item(f)),
    {
        self.emit(GenItem::Operation(BarracudaOperators::FIXED(f)));
    }

    /// Appends an instruction.
    fn emit_instruction(&mut self, i: BarracudaInstructions)
        requires
            old(self).wf(),
        ensures
            final(self).wf(),
            final(self).state() == emit(old(self).state(), ItemKind::Instruction(i)),
    {
        self.emit(GenItem::Instruction(i));
    }

    /// Appends a comment.
    fn comment(&mut self, text: String)
        requires
            old(self).wf(),
        ensures
            final(self).wf(),
            final(self).state() == emit(old(self).state(), ItemKind::Comment),
    {
        self.emit(GenItem::Comment(text));
    }

    /// Creates a label: the next label id.
    fn create_label(&mut self) -> (r: u64)
        requires
            old(self).wf(),
            old(self).state().3 < u64::MAX,
        ensures
            final(self).wf(),
            r == old(self).state().3,
            final(self).state() == with_label(old(self).state()),
    {
        let label = self.label_count;
        self.label_count = self.label_count + 1;
        label
    }

    /// Marks the position of a label.
    fn set_label(&mut self, label: u64)
        requires
            old(self).wf(),
        ensures
            final(self).wf(),
            final(self).state() == emit(old(self).state(), ItemKind::Label(label)),
    {
        self.emit(GenItem::Label(label));
    }

    /// Appends a reference to a label.
    fn reference(&mut self, label: u64)
        requires
            old(self).wf(),
        ensures
            final(self).wf(),
            final(self).state() == emit(old(self).state(), ItemKind::Reference(label)),
    {
        self.emit(GenItem::Reference(label));
    }

    /// The symbol a name denotes, as a copy.
    fn lookup(&self, name: &String) -> (r: Option<BarracudaSymbol>)
        requires
            self.wf(),
        ensures
            match r {
                Some(s) => key_levels_find(self.state().0, name@) == Some(symbol_key(s)),
                None => key_levels_find(self.state().0, name@) is None,
            },
    {
        let r = self.scope.get_symbol(name);
        proof {
            lemma_key_levels_find(self.scope.levels(), name@);
            if r is Some {
                let t = levels_find(self.scope.levels(), name@).unwrap();
                lemma_same_key(r.unwrap(), t);
            }
        }
        r
    }

    /// Declares a symbol in the innermost level.
    fn declare_symbol(&mut self, symbol: BarracudaSymbol)
        requires
            old(self).wf(),
            declare(old(self).state(), symbol_key(symbol)) is Some,
        ensures
            final(self).wf(),
            final(self).state() == declare(old(self).state(), symbol_key(symbol)).unwrap(),
    {
        let ghost key = symbol_key(symbol);
        let ghost levels = self.scope.levels();
        proof {
            self.scope.lemma_levels_distinct();
            lemma_key_insert(levels.last(), symbol);
            assert(keys_of(levels).last() == levels.last().map_values(|s: BarracudaSymbol| symbol_key(s)));
        }
        self.scope.add_symbol(symbol);
        proof {
            let after = levels.drop_last().push(level_insert(levels.last(), symbol));
            assert(keys_of(after) =~= keys_of(levels).drop_last().push(key_insert(keys_of(levels).last(), key)));
        }
    }

    /// Opens a scope level.
    fn add_level(&mut self)
        requires
            old(self).wf(),
        ensures
            final(self).wf(),
            final(self).state() == (old(self).state().0.push(Seq::empty()), old(self).state().1, old(self).state().2, old(
                self,
            ).state().3),
    {
        let ghost levels = self.scope.levels();
        self.scope.add_level();
        assert(Seq::<BarracudaSymbol>::empty().map_values(|s: BarracudaSymbol| symbol_key(s)) =~= Seq::<SymbolKey>::empty());
        assert(keys_of(levels.push(Seq::empty())) =~= keys_of(levels).push(Seq::empty()));
    }

    /// Closes the innermost scope level.
    fn remove_level(&mut self)
        requires
            old(self).wf(),
            old(self).state().0.len() > 0,
        ensures
            final(self).wf(),
            final(self).state() == (old(self).state().0.drop_last(), old(self).state().1, old(self).state().2, old(
                self,
            ).state().3),
    {
        let ghost levels = self.scope.levels();
        self.scope.remove_level();
        assert(keys_of(levels.drop_last()) =~= keys_of(levels).drop_last());
    }
}

/// A prefix of a list that generates also generates.
proof fn lemma_list_prefix(node: ASTNode, k: nat, j: nat, st: GenState)
    requires
        j <= k,
        gen_list(node, k, st) is Some,
    ensures
        gen_list(node, j, st) is Some,
    decreases k,
{
    if j < k {
        lemma_list_prefix(node, (k - 1) as nat, j, st);
    }
}

/// A prefix of the parameters that is declared without fault.
proof fn lemma_params_prefix(params: Seq<ASTNode>, k: nat, j: nat, st: GenState)
    requires
        j <= k,
        gen_params(params, k, st) is Some,
    ensures
        gen_params(params, j, st) is Some,
    decreases k,
{
    if j < k {
        lemma_params_prefix(params, (k - 1) as nat, j, st);
    }
}

/// A comment made of some words and a name.
fn comment_text(words: &str, name: &String) -> (r: String) {
    let mut out = String::new();
    let w = crate::text::str_chars(words);
    let mut i: usize = 0;
    while i < w.len()
        invariant
            i <= w@.len(),
        decreases w@.len() - i,
    {
        string_push(&mut out, w[i]);
        i = i + 1;
    }
    let n = crate::text::str_chars(name.as_str());
    let mut j: usize = 0;
    while j < n.len()
        invariant
            j <= n@.len(),
        decreases n@.len() - j,
    {
        string_push(&mut out, n[j]);
        j = j + 1;
    }
    out
}

impl BarracudaBackend {
    /// Emits the code of a node (see `gen`).
    #[verifier::spinoff_prover]
    #[verifier::rlimit(60)]
    pub fn generate_node(&mut self, node: &ASTNode)
        requires
            old(self).wf(),
            gen(*node, old(self).state()) is Some,
        ensures
            final(self).wf(),
            final(self).state() == gen(*node, old(self).state()).unwrap(),
        decreases node, list_width(*node) + 1,
    {
        let ghost st = self.state();
        match node {
            ASTNode::IDENTIFIER(name) => {
                if let Some(symbol) = self.lookup(name) {
                    self.emit_number(symbol.scope_id as u64);
                    self.emit_op(FixedBarracudaOperators::STK_READ);
                }
            },
            ASTNode::LITERAL(l) => match l {
                Literal::FLOAT(b) => self.emit(GenItem::Value(*b)),
                Literal::INTEGER(v) => self.emit_number(*v),
                Literal::BOOL(b) => self.emit_number(if *b { 1 } else { 0 }),
                Literal::PACKEDSTRING(_) => {},
            },
            ASTNode::UNARY_OP { op, expression } => {
                self.generate_node(expression);
                match op {
                    UnaryOperation::NOT => self.emit_op(FixedBarracudaOperators::NOT),
                    UnaryOperation::NEGATE => {
                        self.emit_number(0);
                        self.emit_op(FixedBarracudaOperators::SUB);
                    },
                    UnaryOperation::PTR_DEREF => {},
                }
            },
            ASTNode::BINARY_OP { op, lhs, rhs } => {
                self.generate_node(lhs);
                self.generate_node(rhs);
                match op {
                    BinaryOperation::ADD => self.emit_op(FixedBarracudaOperators::ADD),
                    BinaryOperation::SUB => self.emit_op(FixedBarracudaOperators::SUB),
                    BinaryOperation::DIV => self.emit_op(FixedBarracudaOperators::DIV),
                    BinaryOperation::MUL => self.emit_op(FixedBarracudaOperators::MUL),
                    BinaryOperation::MOD => self.emit_op(FixedBarracudaOperators::FMOD),
                    BinaryOperation::POW => self.emit_op(FixedBarracudaOperators::POW),
                    BinaryOperation::EQUAL => self.emit_op(FixedBarracudaOperators::EQ),
                    BinaryOperation::NOT_EQUAL => {
                        self.emit_op(FixedBarracudaOperators::EQ);
                        self.emit_op(FixedBarracudaOperators::NOT);
                    },
                    BinaryOperation::GREATER_THAN => self.emit_op(FixedBarracudaOperators::GT),
                    BinaryOperation::LESS_THAN => self.emit_op(FixedBarracudaOperators::LT),
                    BinaryOperation::GREATER_EQUAL => self.emit_op(FixedBarracudaOperators::GTEQ),
                    BinaryOperation::LESS_EQUAL => self.emit_op(FixedBarracudaOperators::LTEQ),
                }
            },
            ASTNode::CONSTRUCT { identifier, expression, .. } => {
                if let ASTNode::IDENTIFIER(name) = &**identifier {
                    let id = self.scope.next_mutable_id();
                    self.emit_number(id as u64);
                    self.generate_node(expression);
                    self.emit_op(FixedBarracudaOperators::STK_WRITE);
                    let symbol = BarracudaSymbol {
                        name: name.clone(),
                        symbol_type: SymbolType::Void,
                        mutable: true,
                        scope_id: id,
                    };
                    self.declare_symbol(symbol);
                }
            },
            ASTNode::ASSIGNMENT { identifier, expression } => {
                if let ASTNode::IDENTIFIER(name) = &**identifier {
                    if let Some(symbol) = self.lookup(name) {
                        self.emit_number(symbol.scope_id as u64);
                        self.generate_node(expression);
                        self.emit_op(FixedBarracudaOperators::STK_WRITE);
                    }
                }
            },
            ASTNode::PRINT { expression } => {
                self.generate_node(expression);
                self.emit_op(FixedBarracudaOperators::PRINTFF);
                self.emit_number(10);
                self.emit_op(FixedBarracudaOperators::PRINTC);
            },
            ASTNode::RETURN { expression } => {
                self.generate_node(expression);
                self.emit_op(FixedBarracudaOperators::SWAP);
                self.emit_instruction(BarracudaInstructions::GOTO);
            },
            ASTNode::BRANCH { condition, if_branch, else_branch } => {
                let if_end = self.create_label();
                self.generate_node(condition);
                self.reference(if_end);
                self.emit_instruction(BarracudaInstructions::GOTO_IF);
                self.generate_node(if_branch);
                match &**else_branch {
                    None => self.set_label(if_end),
                    Some(e) => {
                        let else_end = self.create_label();
                        self.reference(else_end);
                        self.emit_instruction(BarracudaInstructions::GOTO);
                        self.set_label(if_end);
                        proof {
                            assert(decreases_to!(*node => **else_branch));
                        }
                        self.generate_node(e);
                        self.set_label(else_end);
                    },
                }
            },
            ASTNode::WHILE_LOOP { condition, body } => {
                let start = self.create_label();
                let exit = self.create_label();
                self.set_label(start);
                self.generate_node(condition);
                self.reference(exit);
                self.emit_instruction(BarracudaInstructions::GOTO_IF);
                self.generate_node(body);
                self.reference(start);
                self.emit_instruction(BarracudaInstructions::GOTO);
                self.set_label(exit);
            },
            ASTNode::FOR_LOOP { initialization, condition, advancement, body } => {
                let start = self.create_label();
                let exit = self.create_label();
                self.generate_node(initialization);
                self.set_label(start);
                self.generate_node(condition);
                self.reference(exit);
                self.emit_instruction(BarracudaInstructions::GOTO_IF);
                self.generate_node(body);
                self.generate_node(advancement);
                self.reference(start);
                self.emit_instruction(BarracudaInstructions::GOTO);
                self.set_label(exit);
            },
            ASTNode::STATEMENT_LIST(stmts) => {
                self.add_level();
                let ghost s1 = self.state();
                let n = stmts.len();
                let mut i: usize = 0;
                assert(gen_list(*node, 0, s1) == Some(s1));
                while i < n
                    invariant
                        n == stmts@.len(),
                        i <= n,
                        *node == ASTNode::STATEMENT_LIST(*stmts),
                        self.wf(),
                        gen_list(*node, n as nat, s1) is Some,
                        gen_list(*node, i as nat, s1) == Some(self.state()),
                    decreases n - i,
                {
                    proof {
                        lemma_list_prefix(*node, n as nat, (i + 1) as nat, s1);
                        assert(decreases_to!(*node => *stmts));
                        assert(decreases_to!(*stmts => stmts@));
                        assert(decreases_to!(stmts@ => stmts@[i as int]));
                    }
                    self.generate_node(&stmts[i]);
                    i = i + 1;
                }
                self.remove_level();
            },
            ASTNode::FUNCTION { identifier, parameters, return_type, body } => {
                if let ASTNode::IDENTIFIER(name) = &**identifier {
                    self.add_level();
                    let ghost s1 = self.state();
                    let start = self.scope.next_mutable_id();
                    let mut param_types: Vec<SymbolType> = Vec::new();
                    let n = parameters.len();
                    let mut i: usize = 0;
                    while i < n
                        invariant
                            n == parameters@.len(),
                            i <= n,
                            self.wf(),
                            param_types@.len() == i,
                            gen_params(parameters@, n as nat, s1) is Some,
                            gen_params(parameters@, i as nat, s1) == Some(self.state()),
                        decreases n - i,
                    {
                        proof {
                            lemma_params_prefix(parameters@, n as nat, (i + 1) as nat, s1);
                        }
                        if let ASTNode::PARAMETER { identifier: p, datatype } = &parameters[i] {
                            if let ASTNode::IDENTIFIER(pn) = &**p {
                                let t = match &**datatype {
                                    None => SymbolType::F64,
                                    Some(ASTNode::IDENTIFIER(dn)) => SymbolType::from(dn.clone()),
                                    Some(_) => SymbolType::Void,
                                };
                                let t2 = t.duplicate();
                                let id = self.scope.next_mutable_id();
                                let symbol = BarracudaSymbol { name: pn.clone(), symbol_type: t, mutable: true, scope_id: id };
                                self.declare_symbol(symbol);
                                param_types.push(t2);
                            }
                        }
                        i = i + 1;
                    }
                    let ret = match &**return_type {
                        ASTNode::IDENTIFIER(rn) => SymbolType::from(rn.clone()),
                        _ => SymbolType::Void,
                    };
                    let func_label = self.create_label();
                    let func_end = self.create_label();
                    self.comment(comment_text("FN DEF ", name));
                    self.reference(func_end);
                    self.emit_instruction(BarracudaInstructions::GOTO);
                    self.set_label(func_label);
                    self.generate_node(body);
                    self.emit_instruction(BarracudaInstructions::GOTO);
                    self.set_label(func_end);
                    self.comment(comment_text("FN DEF END", &String::new()));
                    self.remove_level();
                    let symbol = BarracudaSymbol {
                        name: name.clone(),
                        symbol_type: SymbolType::Function {
                            func_label,
                            func_params: param_types,
                            func_return: Box::new(ret),
                        },
                        mutable: false,
                        scope_id: start,
                    };
                    self.declare_symbol(symbol);
                }
            },
            ASTNode::FUNC_CALL { identifier, arguments } => {
                if let ASTNode::IDENTIFIER(name) = &**identifier {
                    if let Some(symbol) = self.lookup(name) {
                        if let SymbolType::Function { func_label, .. } = &symbol.symbol_type {
                            let label = *func_label;
                            self.comment(comment_text("FN CALL ", name));
                            let ghost s1 = self.state();
                            let n = arguments.len();
                            let mut param_id = symbol.scope_id;
                            let mut i: usize = 0;
                            assert(gen_list(*node, 0, s1) == Some(s1));
                            while i < n
                                invariant
                                    n == arguments@.len(),
                                    i <= n,
                                    *node == (ASTNode::FUNC_CALL { identifier: *identifier, arguments: *arguments }),
                                    self.wf(),
                                    s1.0 == st.0,
                                    identifier_of(**identifier) == Some(name@),
                                    key_levels_find(st.0, name@) == Some(symbol_key(symbol)),
                                    symbol.scope_id + n <= usize::MAX,
                                    param_id == symbol.scope_id + i,
                                    gen_list(*node, n as nat, s1) is Some,
                                    gen_list(*node, i as nat, s1) == Some(self.state()),
                                decreases n - i,
                            {
                                proof {
                                    lemma_list_prefix(*node, n as nat, (i + 1) as nat, s1);
                                    assert(decreases_to!(*node => *arguments));
                                    assert(decreases_to!(*arguments => arguments@));
                                    assert(decreases_to!(arguments@ => arguments@[i as int]));
                                    assert(call_slot(*node, s1, i as nat) == param_id);
                                }
                                self.emit_number(param_id as u64);
                                self.generate_node(&arguments[i]);
                                self.emit_op(FixedBarracudaOperators::STK_WRITE);
                                param_id = param_id + 1;
                                i = i + 1;
                            }
                            let end = self.create_label();
                            self.reference(end);
                            self.reference(label);
                            self.emit_instruction(BarracudaInstructions::GOTO);
                            self.comment(comment_text("FN CALL END", &String::new()));
                            self.set_label(end);
                        }
                    }
                }
            },
            _ => {},
        }
    }
}

/// Whether an item becomes an instruction (labels and comments do not).
pub open spec fn takes_slot(k: ItemKind) -> bool {
    !(k is Label || k is Comment)
}

/// How many of the first `n` items become instructions.
pub open spec fn slots_before(items: Seq<ItemKind>, n: int) -> nat
    decreases n,
{
    if n <= 0 {
        0
    } else {
        slots_before(items, n - 1) + if takes_slot(items[n - 1]) { 1nat } else { 0nat }
    }
}

/// The instruction index a label marks: the number of instructions before
/// its last mark among the first `n` items, 0 when it has none.
pub open spec fn label_location(items: Seq<ItemKind>, id: u64, n: int) -> nat
    decreases n,
{
    if n <= 0 {
        0
    } else if items[n - 1] == ItemKind::Label(id) {
        slots_before(items, n - 1)
    } else {
        label_location(items, id, n - 1)
    }
}

/// The tables of the first `n` items, labels resolved through all `items`:
/// values, operations and instructions.
pub open spec fn resolve(items: Seq<ItemKind>, n: int) -> (Seq<u64>, Seq<BarracudaOperators>, Seq<BarracudaInstructions>)
    decreases n,
{
    if n <= 0 {
        (Seq::empty(), Seq::empty(), Seq::empty())
    } else {
        let t = resolve(items, n - 1);
        match items[n - 1] {
            ItemKind::Value(v) => (t.0.push(v), t.1.push(null_operation()), t.2.push(BarracudaInstructions::VALUE)),
            ItemKind::Reference(id) => (
                t.0.push(double_bits(label_location(items, id, items.len() as int)) as u64),
                t.1.push(null_operation()),
                t.2.push(BarracudaInstructions::VALUE),
            ),
            ItemKind::Instruction(i) => (t.0.push(0u64), t.1.push(null_operation()), t.2.push(i)),
            ItemKind::Operation(o) => (t.0.push(0u64), t.1.push(o), t.2.push(BarracudaInstructions::OP)),
            _ => t,
        }
    }
}

/// The items of a program: a zero value for each mutable symbol declared
/// (the stack slots of the variables), then the generated items.
pub open spec fn with_header(total: nat, items: Seq<ItemKind>) -> Seq<ItemKind> {
    Seq::new(total, |i: int| ItemKind::Value(0u64)) + items
}

/// The program code a tree generates: its items after the header, labels
/// resolved.
pub open spec fn spec_generate(node: ASTNode) -> (Seq<u64>, Seq<BarracudaOperators>, Seq<BarracudaInstructions>) {
    let st = gen(node, (Seq::empty(), 0, Seq::empty(), 0)).unwrap();
    let items = with_header(st.1, st.2);
    resolve(items, items.len() as int)
}

/// The instruction index that label `id` marks in the items.
fn find_label(items: &Vec<GenItem>, id: u64) -> (r: usize)
    ensures
        r as nat == label_location(items@.map_values(|i: GenItem| item_kind(i)), id, items@.len() as int),
{
    let ghost kinds = items@.map_values(|i: GenItem| item_kind(i));
    let mut location: usize = 0;
    let mut line: usize = 0;
    let mut k: usize = 0;
    while k < items.len()
        invariant
            k <= items@.len(),
            kinds == items@.map_values(|i: GenItem| item_kind(i)),
            line as nat == slots_before(kinds, k as int),
            line <= k,
            location as nat == label_location(kinds, id, k as int),
        decreases items@.len() - k,
    {
        assert(kinds[k as int] == item_kind(items@[k as int]));
        match &items[k] {
            GenItem::Label(l) => {
                if *l == id {
                    location = line;
                }
            },
            GenItem::Comment(_) => {},
            _ => {
                line = line + 1;
            },
        }
        k = k + 1;
    }
    location
}

impl BarracudaBackend {
    /// Puts a zero value before the code for each mutable symbol declared,
    /// the stack slots of the variables.
    fn insert_program_header(&mut self)
        requires
            old(self).wf(),
        ensures
            final(self).wf(),
            final(self).state().2 == with_header(old(self).state().1, old(self).state().2),
            final(self).state().1 == old(self).state().1,
    {
        let total = self.scope.next_mutable_id();
        let mut header: Vec<GenItem> = Vec::new();
        let mut k: usize = 0;
        while k < total
            invariant
                k <= total,
                header@.len() == k,
                header@.map_values(|i: GenItem| item_kind(i)) == Seq::new(k as nat, |i: int| ItemKind::Value(0u64)),
            decreases total - k,
        {
            let ghost prev = header@;
            header.push(GenItem::Value(0));
            let ghost mapped = header@.map_values(|i: GenItem| item_kind(i));
            let ghost prev_mapped = prev.map_values(|i: GenItem| item_kind(i));
            assert forall|j: int| 0 <= j < k + 1 implies #[trigger] mapped[j] == ItemKind::Value(0u64) by {
                if j < k {
                    assert(header@[j] == prev[j]);
                    assert(prev_mapped[j] == ItemKind::Value(0u64));
                }
            }
            assert(header@.map_values(|i: GenItem| item_kind(i)) =~= Seq::new((k + 1) as nat, |i: int| ItemKind::Value(0u64)));
            k = k + 1;
        }
        let ghost before = self.program_out@;
        header.append(&mut self.program_out);
        self.program_out = header;
        assert(self.program_out@.map_values(|i: GenItem| item_kind(i)) =~= with_header(
            old(self).state().1,
            before.map_values(|i: GenItem| item_kind(i)),
        ));
    }

    /// Resolves labels into instruction indices and builds the program code.
    fn resolve_labels(&self) -> (r: ProgramCode)
        ensures
            (r.values@, r.operations@, r.instructions@) == resolve(self.state().2, self.state().2.len() as int),
    {
        let ghost kinds = self.state().2;
        let mut output_program = ProgramCode::default();
        let mut k: usize = 0;
        while k < self.program_out.len()
            invariant
                k <= self.program_out@.len(),
                kinds == self.program_out@.map_values(|i: GenItem| item_kind(i)),
                (output_program.values@, output_program.operations@, output_program.instructions@) == resolve(
                    kinds,
                    k as int,
                ),
            decreases self.program_out@.len() - k,
        {
            assert(kinds[k as int] == item_kind(self.program_out@[k as int]));
            match &self.program_out[k] {
                GenItem::Instruction(instruction) => output_program.push_instruction(*instruction),
                GenItem::Operation(operation) => output_program.push_operation(*operation),
                GenItem::Value(value) => output_program.push_value(*value),
                GenItem::Reference(id) => {
                    let location = find_label(&self.program_out, *id);
                    output_program.push_value(integer_to_double_bits(location as u64));
                },
                GenItem::Label(_) => {},
                GenItem::Comment(_) => {},
            }
            k = k + 1;
        }
        output_program
    }

    /// Generates the program code of a tree: its code, a header of stack
    /// slots for the variables, labels resolved (see `spec_generate`).
    pub fn generate(node: &ASTNode) -> (r: ProgramCode)
        requires
            gen(*node, (Seq::empty(), 0, Seq::empty(), 0)) is Some,
        ensures
            (r.values@, r.operations@, r.instructions@) == spec_generate(*node),
    {
        let mut backend = BarracudaBackend::new();
        backend.generate_node(node);
        backend.insert_program_header();
        backend.resolve_labels()
    }
}

/// Compiles a parsed program: the program code the generator makes of its
/// syntax tree (see `spec_generate`).
pub fn compile_ast(ast: &ASTNode) -> (r: ProgramCode)
    requires
        gen(*ast, (Seq::empty(), 0, Seq::empty(), 0)) is Some,
    ensures
        (r.values@, r.operations@, r.instructions@) == spec_generate(*ast),
{
    BarracudaBackend::generate(ast)
}

/// Resolving items gives one value, one operation and one instruction per
/// item that takes an instruction slot.
proof fn lemma_resolve_lengths(items: Seq<ItemKind>, n: int)
    requires
        0 <= n <= items.len(),
    ensures
        resolve(items, n).0.len() == slots_before(items, n),
        resolve(items, n).1.len() == slots_before(items, n),
        resolve(items, n).2.len() == slots_before(items, n),
    decreases n,
{
    if n > 0 {
        lemma_resolve_lengths(items, n - 1);
    }
}

/// A reference to a label loads the index of the instruction that follows
/// the label's last mark.
proof fn lemma_resolve_reference(items: Seq<ItemKind>, n: int, i: int)
    requires
        0 <= i < n <= items.len(),
        items[i] is Reference,
    ensures
        resolve(items, n).0[slots_before(items, i) as int] == double_bits(
            label_location(items, items[i]->Reference_0, items.len() as int),
        ) as u64,
    decreases n,
{
    lemma_resolve_lengths(items, n - 1);
    lemma_resolve_lengths(items, i);
    if i < n - 1 {
        lemma_resolve_reference(items, n - 1, i);
        lemma_slots_monotone(items, i + 1, n - 1);
    }
}

/// Slots only grow along the items.
proof fn lemma_slots_monotone(items: Seq<ItemKind>, i: int, j: int)
    requires
        i <= j,
    ensures
        slots_before(items, i) <= slots_before(items, j),
    decreases j - i,
{
    if i < j {
        lemma_slots_monotone(items, i, j - 1);
    }
}

/// The generated program code has three aligned tables, and each jump
/// target it loads is the index of the instruction after its label.
pub proof fn law_generated_code_is_aligned(node: ASTNode)
    requires
        gen(node, (Seq::empty(), 0, Seq::empty(), 0)) is Some,
    ensures
        spec_generate(node).0.len() == spec_generate(node).2.len(),
        spec_generate(node).1.len() == spec_generate(node).2.len(),
        ({
            let st = gen(node, (Seq::empty(), 0, Seq::empty(), 0)).unwrap();
            let items = with_header(st.1, st.2);
            forall|i: int| 0 <= i < items.len() && #[trigger] items[i] is Reference ==> spec_generate(node).0[slots_before(
                items,
                i,
            ) as int] == double_bits(label_location(items, items[i]->Reference_0, items.len() as int)) as u64
        }),
{
    let st = gen(node, (Seq::empty(), 0, Seq::empty(), 0)).unwrap();
    let items = with_header(st.1, st.2);
    lemma_resolve_lengths(items, items.len() as int);
    assert forall|i: int| 0 <= i < items.len() && #[trigger] items[i] is Reference implies spec_generate(node).0[slots_before(
        items,
        i,
    ) as int] == double_bits(label_location(items, items[i]->Reference_0, items.len() as int)) as u64 by {
        lemma_resolve_reference(items, items.len() as int, i);
    }
}


/// Each binary operator of the syntax tree compiles to the code of its left
/// operand, then of its right operand, then the VM operation of the same
/// meaning: `+` to `ADD`, `-` to `SUB`, `/` to `DIV`, `*` to `MUL`, `%` to
/// `FMOD`, `^` to `POW`, `==` to `EQ`, `!=` to `EQ` then `NOT`, `>` to `GT`,
/// `<` to `LT`, `>=` to `GTEQ` and `<=` to `LTEQ`.
pub proof fn law_binary_operators_keep_their_meaning(op: BinaryOperation, lhs: ASTNode, rhs: ASTNode, st: GenState)
    requires
        gen(ASTNode::BINARY_OP { op, lhs: Box::new(lhs), rhs: Box::new(rhs) }, st) is Some,
    ensures
        ({
            let items = gen(ASTNode::BINARY_OP { op, lhs: Box::new(lhs), rhs: Box::new(rhs) }, st).unwrap().2;
            let operands = gen(rhs, gen(lhs, st).unwrap()).unwrap().2;
            let n = items.len() - 1;
            let last = items[n];
            &&& gen(lhs, st) is Some
            &&& gen(rhs, gen(lhs, st).unwrap()) is Some
            &&& operands.len() < items.len()
            &&& items.subrange(0, operands.len() as int) == operands
            &&& op == BinaryOperation::NOT_EQUAL ==> items.len() == operands.len() + 2
                && items[n - 1] == ItemKind::Operation(BarracudaOperators::FIXED(FixedBarracudaOperators::EQ))
                && last == ItemKind::Operation(BarracudaOperators::FIXED(FixedBarracudaOperators::NOT))
            &&& op != BinaryOperation::NOT_EQUAL ==> items.len() == operands.len() + 1
            &&& op == BinaryOperation::ADD ==> last == ItemKind::Operation(BarracudaOperators::FIXED(FixedBarracudaOperators::ADD))
            &&& op == BinaryOperation::SUB ==> last == ItemKind::Operation(BarracudaOperators::FIXED(FixedBarracudaOperators::SUB))
            &&& op == BinaryOperation::DIV ==> last == ItemKind::Operation(BarracudaOperators::FIXED(FixedBarracudaOperators::DIV))
            &&& op == BinaryOperation::MUL ==> last == ItemKind::Operation(BarracudaOperators::FIXED(FixedBarracudaOperators::MUL))
            &&& op == BinaryOperation::MOD ==> last == ItemKind::Operation(BarracudaOperators::FIXED(FixedBarracudaOperators::FMOD))
            &&& op == BinaryOperation::POW ==> last == ItemKind::Operation(BarracudaOperators::FIXED(FixedBarracudaOperators::POW))
            &&& op == BinaryOperation::EQUAL ==> last == ItemKind::Operation(BarracudaOperators::FIXED(FixedBarracudaOperators::EQ))
            &&& op == BinaryOperation::GREATER_THAN ==> last == ItemKind::Operation(BarracudaOperators::FIXED(FixedBarracudaOperators::GT))
            &&& op == BinaryOperation::LESS_THAN ==> last == ItemKind::Operation(BarracudaOperators::FIXED(FixedBarracudaOperators::LT))
            &&& op == BinaryOperation::GREATER_EQUAL ==> last == ItemKind::Operation(BarracudaOperators::FIXED(FixedBarracudaOperators::GTEQ))
            &&& op == BinaryOperation::LESS_EQUAL ==> last == ItemKind::Operation(BarracudaOperators::FIXED(FixedBarracudaOperators::LTEQ))
        }),
{
    let operands = gen(rhs, gen(lhs, st).unwrap()).unwrap().2;
    let items = gen(ASTNode::BINARY_OP { op, lhs: Box::new(lhs), rhs: Box::new(rhs) }, st).unwrap().2;
    if op == BinaryOperation::NOT_EQUAL {
        assert(items.subrange(0, operands.len() as int) =~= operands);
    } else {
        assert(items.subrange(0, operands.len() as int) =~= operands);
    }
}

/// The unary operators compile to the code of their operand, then `NOT` for
/// `!`, and for `-` a zero loaded and `SUB`.
pub proof fn law_unary_operators_keep_their_meaning(op: UnaryOperation, operand: ASTNode, st: GenState)
    requires
        gen(ASTNode::UNARY_OP { op, expression: Box::new(operand) }, st) is Some,
    ensures
        ({
            let items = gen(ASTNode::UNARY_OP { op, expression: Box::new(operand) }, st).unwrap().2;
            let inner = gen(operand, st).unwrap().2;
            &&& gen(operand, st) is Some
            &&& items.subrange(0, inner.len() as int) == inner
            &&& op == UnaryOperation::NOT ==> items.len() == inner.len() + 1
                && items.last() == ItemKind::Operation(BarracudaOperators::FIXED(FixedBarracudaOperators::NOT))
            &&& op == UnaryOperation::NEGATE ==> items.len() == inner.len() + 2
                && items[inner.len() as int] == ItemKind::Value(0)
                && items.last() == ItemKind::Operation(BarracudaOperators::FIXED(FixedBarracudaOperators::SUB))
        }),
{
    let items = gen(ASTNode::UNARY_OP { op, expression: Box::new(operand) }, st).unwrap().2;
    let inner = gen(operand, st).unwrap().2;
    assert(items.subrange(0, inner.len() as int) =~= inner);
    if op == UnaryOperation::NEGATE {
        crate::double_bits::lemma_two_to_constants();
    }
}


/// Printing an expression compiles to the expression's code, then `PRINTFF`
/// (print the number), then a newline character (10) printed by `PRINTC`;
/// reading an identifier loads the stack slot of its innermost declaration
/// and `STK_READ`s it.
pub proof fn law_print_and_read_keep_their_meaning(expression: ASTNode, name: String, st: GenState)
    ensures
        gen(ASTNode::PRINT { expression: Box::new(expression) }, st) is Some <==> gen(expression, st) is Some,
        gen(expression, st) is Some ==> ({
            let inner = gen(expression, st).unwrap().2;
            let items = gen(ASTNode::PRINT { expression: Box::new(expression) }, st).unwrap().2;
            &&& items.len() == inner.len() + 3
            &&& items.subrange(0, inner.len() as int) == inner
            &&& items[inner.len() as int] == ItemKind::Operation(BarracudaOperators::FIXED(FixedBarracudaOperators::PRINTFF))
            &&& items[inner.len() as int + 1] == ItemKind::Value(double_bits(10) as u64)
            &&& items[inner.len() as int + 2] == ItemKind::Operation(BarracudaOperators::FIXED(FixedBarracudaOperators::PRINTC))
        }),
        gen(ASTNode::IDENTIFIER(name), st) is Some <==> key_levels_find(st.0, name@) is Some,
        key_levels_find(st.0, name@) matches Some(k) ==> gen(ASTNode::IDENTIFIER(name), st).unwrap().2 == st.2.push(
            ItemKind::Value(double_bits(k.2 as nat) as u64),
        ).push(ItemKind::Operation(BarracudaOperators::FIXED(FixedBarracudaOperators::STK_READ))),
{
    if gen(expression, st) is Some {
        let inner = gen(expression, st).unwrap().2;
        let items = gen(ASTNode::PRINT { expression: Box::new(expression) }, st).unwrap().2;
        assert(items.subrange(0, inner.len() as int) =~= inner);
    }
}

} // verus!
