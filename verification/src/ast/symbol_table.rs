//! Symbols of a program and the tree of scopes in which they are declared.
use vstd::prelude::*;
use std::collections::HashMap;
use crate::ast::datatype::{DataType, array_length_fits, spec_array_length};
use crate::ast::scope::ScopeId;
use crate::text::{decimal, push_decimal, str_chars, chars_equal, chars_to_string, lemma_decimal_digits, lemma_decimal_injective};

verus! {

broadcast use vstd::std_specs::hash::group_hash_axioms;

/// What an identifier stands for.
#[derive(Debug)]
pub enum SymbolType {
    /// A local variable of a data type.
    Variable(DataType),
    /// A variable of the host environment: its address, data type and qualifier text.
    EnvironmentVariable(usize, DataType, String),
    /// A function parameter of a data type.
    Parameter(DataType),
    /// A function with its parameter types and return type.
    Function { func_params: Vec<DataType>, func_return: Box<DataType> },
}

impl SymbolType {
    /// Whether two symbol types carry the same data.
    pub open spec fn same(self, other: SymbolType) -> bool {
        match (self, other) {
            (SymbolType::Variable(a), SymbolType::Variable(b)) => a == b,
            (SymbolType::EnvironmentVariable(i, a, s), SymbolType::EnvironmentVariable(j, b, t)) => i == j && a == b
                && s@ == t@,
            (SymbolType::Parameter(a), SymbolType::Parameter(b)) => a == b,
            (
                SymbolType::Function { func_params: p, func_return: r },
                SymbolType::Function { func_params: q, func_return: s },
            ) => p@ == q@ && r == s,
            _ => false,
        }
    }

    /// A copy carrying the same data.
    pub fn duplicate(&self) -> (r: Self)
        ensures
            r.same(*self),
    {
        match self {
            SymbolType::Variable(d) => SymbolType::Variable(d.duplicate()),
            SymbolType::EnvironmentVariable(i, d, s) => SymbolType::EnvironmentVariable(*i, d.duplicate(), s.clone()),
            SymbolType::Parameter(d) => SymbolType::Parameter(d.duplicate()),
            SymbolType::Function { func_params, func_return } => {
                let mut params: Vec<DataType> = Vec::new();
                let n = func_params.len();
                for i in 0..n
                    invariant
                        n == func_params@.len(),
                        params@ == func_params@.take(i as int),
                {
                    params.push(func_params[i].duplicate());
                    assert(func_params@.take(i as int).push(func_params@[i as int]) =~= func_params@.take(i + 1));
                }
                assert(func_params@.take(n as int) =~= func_params@);
                SymbolType::Function { func_params: params, func_return: Box::new((**func_return).duplicate()) }
            },
        }
    }
}

impl Clone for SymbolType {
    fn clone(&self) -> (r: Self)
        ensures
            r.same(*self),
    {
        self.duplicate()
    }
}

/// The number of primitive cells a symbol of this type occupies as an
/// array: the array length of a variable of array type, 0 for anything else.
pub open spec fn spec_symbol_array_length(t: SymbolType) -> nat {
    match t {
        SymbolType::Variable(DataType::ARRAY(inner, size)) => spec_array_length(DataType::ARRAY(inner, size)),
        _ => 0,
    }
}

/// A symbol: the data bound to an identifier in a scope.
#[derive(Debug)]
pub struct Symbol {
    identifier: String,
    symbol_type: SymbolType,
    scope_id: ScopeId,
    declaration_order: usize,
}

/// The text `"<scope id>:<identifier>"` that names a symbol uniquely within a table.
pub open spec fn spec_unique_id(scope: ScopeId, identifier: Seq<char>) -> Seq<char> {
    decimal(scope.id as nat) + seq![':'] + identifier
}

impl Symbol {
    /// The identifier the symbol is known by.
    pub closed spec fn spec_identifier(&self) -> Seq<char> {
        self.identifier@
    }

    /// The type of the symbol.
    pub closed spec fn spec_symbol_type(&self) -> SymbolType {
        self.symbol_type
    }

    /// The scope the symbol belongs to.
    pub closed spec fn spec_scope_id(&self) -> ScopeId {
        self.scope_id
    }

    /// The position of the symbol among the declarations of its scope.
    pub closed spec fn spec_declaration_order(&self) -> nat {
        self.declaration_order as nat
    }

    /// Whether two symbols carry the same data.
    pub open spec fn same(self, other: Symbol) -> bool {
        &&& self.spec_identifier() == other.spec_identifier()
        &&& self.spec_symbol_type().same(other.spec_symbol_type())
        &&& self.spec_scope_id() == other.spec_scope_id()
        &&& self.spec_declaration_order() == other.spec_declaration_order()
    }

    /// A new symbol in the global scope, declared first.
    pub fn new(identifier: String, symbol_type: SymbolType) -> (r: Self)
        ensures
            r.spec_identifier() == identifier@,
            r.spec_symbol_type() == symbol_type,
            r.spec_scope_id().id == 0,
            r.spec_declaration_order() == 0,
    {
        Symbol { identifier, symbol_type, scope_id: ScopeId::global(), declaration_order: 0 }
    }

    /// The identifier.
    pub fn identifier(&self) -> (r: &String)
        ensures
            r@ == self.spec_identifier(),
    {
        &self.identifier
    }

    /// The scope the symbol belongs to.
    pub fn scope_id(&self) -> (r: ScopeId)
        ensures
            r == self.spec_scope_id(),
    {
        self.scope_id
    }

    /// A copy of the symbol type.
    pub fn symbol_type(&self) -> (r: SymbolType)
        ensures
            r.same(self.spec_symbol_type()),
    {
        self.symbol_type.duplicate()
    }

    /// Whether the symbol is a local variable.
    pub fn is_variable(&self) -> (r: bool)
        ensures
            r == (self.spec_symbol_type() is Variable),
    {
        match &self.symbol_type {
            SymbolType::Variable(_) => true,
            _ => false,
        }
    }

    /// Whether the symbol is a local variable of array type.
    pub fn is_array(&self) -> (r: bool)
        ensures
            r == (self.spec_symbol_type() matches SymbolType::Variable(d) && d is ARRAY),
    {
        match &self.symbol_type {
            SymbolType::Variable(datatype) => match datatype {
                DataType::ARRAY(_, _) => true,
                _ => false,
            },
            _ => false,
        }
    }

    /// The number of cells of an array variable, 0 for any other symbol.
    pub fn array_length(&self) -> (r: usize)
        requires
            self.spec_symbol_type() matches SymbolType::Variable(d) ==> array_length_fits(d),
        ensures
            r == spec_symbol_array_length(self.spec_symbol_type()),
    {
        match &self.symbol_type {
            SymbolType::Variable(datatype) => match datatype {
                DataType::ARRAY(_, _) => DataType::get_array_length(datatype),
                _ => 0,
            },
            _ => 0,
        }
    }

    /// The name `"<scope id>:<identifier>"`, unique within a symbol table.
    pub fn unique_id(&self) -> (r: String)
        ensures
            r@ == spec_unique_id(self.spec_scope_id(), self.spec_identifier()),
    {
        let mut chars: Vec<char> = Vec::new();
        push_decimal(&mut chars, self.scope_id.id);
        chars.push(':');
        let name = str_chars(self.identifier.as_str());
        let mut i: usize = 0;
        let n = name.len();
        let ghost prefix = chars@;
        while i < n
            invariant
                n == name@.len(),
                i <= n,
                chars@ == prefix + name@.take(i as int),
            decreases n - i,
        {
            chars.push(name[i]);
            assert(prefix + name@.take(i as int) + seq![name@[i as int]] =~= prefix + name@.take(i + 1));
            i = i + 1;
        }
        assert(name@.take(n as int) =~= name@);
        assert(prefix =~= decimal(self.scope_id.id as nat) + seq![':']);
        chars_to_string(&chars)
    }

    /// A copy of the symbol.
    pub fn duplicate(&self) -> (r: Self)
        ensures
            r.same(*self),
    {
        Symbol {
            identifier: self.identifier.clone(),
            symbol_type: self.symbol_type.duplicate(),
            scope_id: self.scope_id,
            declaration_order: self.declaration_order,
        }
    }

    /// The symbol as its scope stores it: in that scope, at a given position.
    pub closed spec fn placed(self, scope: ScopeId, order: nat) -> Symbol {
        Symbol { scope_id: scope, declaration_order: order as usize, ..self }
    }

    /// Placing keeps the identifier and type and sets the scope and position.
    pub proof fn lemma_placed(self, scope: ScopeId, order: nat)
        requires
            order <= usize::MAX,
        ensures
            self.placed(scope, order).spec_identifier() == self.spec_identifier(),
            self.placed(scope, order).spec_symbol_type() == self.spec_symbol_type(),
            self.placed(scope, order).spec_scope_id() == scope,
            self.placed(scope, order).spec_declaration_order() == order,
    {
    }
}

impl Clone for Symbol {
    fn clone(&self) -> (r: Self)
        ensures
            r.same(*self),
    {
        self.duplicate()
    }
}

/// The last symbol of `symbols` named `name`, if any.
pub open spec fn find_named(symbols: Seq<Symbol>, name: Seq<char>) -> Option<Symbol>
    decreases symbols.len(),
{
    if symbols.len() == 0 {
        None
    } else if symbols.last().spec_identifier() == name {
        Some(symbols.last())
    } else {
        find_named(symbols.drop_last(), name)
    }
}

/// Every symbol carries the scope id `scope`.
pub open spec fn scope_ids_are(symbols: Seq<Symbol>, scope: ScopeId) -> bool {
    forall|i: int| 0 <= i < symbols.len() ==> (#[trigger] symbols[i]).spec_scope_id() == scope
}

/// A symbol found by name is one of the symbols.
proof fn lemma_find_named_member(symbols: Seq<Symbol>, name: Seq<char>)
    ensures
        find_named(symbols, name) matches Some(s) ==> exists|i: int| 0 <= i < symbols.len() && symbols[i] == s,
    decreases symbols.len(),
{
    if symbols.len() > 0 {
        lemma_find_named_member(symbols.drop_last(), name);
        if find_named(symbols, name) is Some && symbols.last().spec_identifier() != name {
            let s = find_named(symbols, name).unwrap();
            let i = choose|i: int| 0 <= i < symbols.drop_last().len() && symbols.drop_last()[i] == s;
            assert(symbols[i] == s);
        } else if find_named(symbols, name) is Some {
            assert(symbols[symbols.len() - 1] == find_named(symbols, name).unwrap());
        }
    }
}

/// A node of the scope tree: its id, its parent, whether it is the body of a
/// subroutine (whose lookups stop before the parent), and its symbols.
#[derive(Debug)]
pub struct SymbolScope {
    id: ScopeId,
    parent: Option<ScopeId>,
    subroutine: bool,
    symbols: Vec<Symbol>,
}

impl SymbolScope {
    /// The id of the scope.
    pub closed spec fn spec_id(&self) -> ScopeId {
        self.id
    }

    /// The parent of the scope, if any.
    pub closed spec fn spec_parent(&self) -> Option<ScopeId> {
        self.parent
    }

    /// Whether the scope is a subroutine body.
    pub closed spec fn spec_subroutine(&self) -> bool {
        self.subroutine
    }

    /// The symbols declared in the scope, in declaration order.
    pub closed spec fn spec_symbols(&self) -> Seq<Symbol> {
        self.symbols@
    }

    /// An empty scope.
    pub fn new(id: ScopeId, parent: Option<ScopeId>, subroutine: bool) -> (r: Self)
        ensures
            r.spec_id() == id,
            r.spec_parent() == parent,
            r.spec_subroutine() == subroutine,
            r.spec_symbols() == Seq::<Symbol>::empty(),
    {
        SymbolScope { id, parent, subroutine, symbols: Vec::new() }
    }

    /// Declares a symbol in the scope. Refused (`false`) when the scope
    /// already has a symbol of that name; otherwise the symbol is stored with
    /// this scope's id and the next declaration position.
    pub fn add_symbol(&mut self, symbol: Symbol) -> (r: bool)
        ensures
            r == (find_named(old(self).spec_symbols(), symbol.spec_identifier()) is None),
            final(self).spec_id() == old(self).spec_id(),
            final(self).spec_parent() == old(self).spec_parent(),
            final(self).spec_subroutine() == old(self).spec_subroutine(),
            r ==> final(self).spec_symbols() == old(self).spec_symbols().push(
                symbol.placed(old(self).spec_id(), old(self).spec_symbols().len()),
            ),
            !r ==> final(self).spec_symbols() == old(self).spec_symbols(),
    {
        if self.get_symbol(&symbol.identifier).is_some() {
            return false;
        }
        let order = self.symbols.len();
        self.symbols.push(Symbol {
            identifier: symbol.identifier,
            symbol_type: symbol.symbol_type,
            scope_id: self.id,
            declaration_order: order,
        });
        true
    }

    /// The symbol of the scope with a given identifier.
    pub fn get_symbol(&self, identifier: &String) -> (r: Option<&Symbol>)
        ensures
            match r {
                Some(s) => find_named(self.spec_symbols(), identifier@) == Some(*s),
                None => find_named(self.spec_symbols(), identifier@) is None,
            },
    {
        let name = str_chars(identifier.as_str());
        let mut i: usize = self.symbols.len();
        assert(self.symbols@.take(i as int) =~= self.symbols@);
        while i > 0
            invariant
                i <= self.symbols@.len(),
                name@ == identifier@,
                find_named(self.symbols@.take(i as int), identifier@) == find_named(self.symbols@, identifier@),
            decreases i,
        {
            let candidate = str_chars(self.symbols[i - 1].identifier.as_str());
            assert(self.symbols@.take(i as int).last() == self.symbols@[i - 1]);
            if chars_equal(&candidate, &name) {
                return Some(&self.symbols[i - 1]);
            }
            assert(self.symbols@.take(i as int).drop_last() =~= self.symbols@.take(i - 1));
            i = i - 1;
        }
        None
    }

    /// The parent of the scope.
    pub fn parent(&self) -> (r: Option<ScopeId>)
        ensures
            r == self.spec_parent(),
    {
        self.parent
    }
}

/// The symbol that `name` denotes from scope `current`, following parent
/// links at most `fuel` times: the scope's own symbol of that name if it has
/// one, otherwise (unless the scope is a subroutine body) the parent's.
pub open spec fn chain_lookup(scopes: Map<u64, SymbolScope>, current: u64, name: Seq<char>, fuel: nat) -> Option<Symbol>
    decreases fuel,
{
    if fuel == 0 || !scopes.contains_key(current) {
        None
    } else {
        let scope = scopes[current];
        match find_named(scope.spec_symbols(), name) {
            Some(symbol) => Some(symbol),
            None => if scope.spec_parent() is Some && !scope.spec_subroutine() {
                chain_lookup(scopes, scope.spec_parent().unwrap().id, name, (fuel - 1) as nat)
            } else {
                None
            },
        }
    }
}

/// The scope tree of a program. Every scope but the global one (id 0) has
/// a parent in the tree, and following parents always ends at the root.
pub struct SymbolTable {
    scope_map: HashMap<u64, SymbolScope>,
    main_entry_scope: ScopeId,
    /// The depth of each scope: a parent is always shallower than its child.
    depth: Ghost<Map<u64, nat>>,
}

impl SymbolTable {
    /// The scopes, by id.
    pub closed spec fn scopes(&self) -> Map<u64, SymbolScope> {
        self.scope_map@
    }

    /// The scope where generation starts.
    pub closed spec fn spec_entry_scope(&self) -> ScopeId {
        self.main_entry_scope
    }

    /// Well-formedness: the global scope is present and has no parent, each
    /// scope is stored under its own id, its symbols carry that id, and every
    /// parent is present and shallower than its child.
    pub closed spec fn wf(&self) -> bool {
        &&& self.scope_map@.contains_key(0)
        &&& self.scope_map@[0].spec_parent() is None
        &&& forall|k: u64| #[trigger] self.scope_map@.contains_key(k) ==> {
            &&& self.scope_map@[k].spec_id().id == k
            &&& scope_ids_are(self.scope_map@[k].spec_symbols(), self.scope_map@[k].spec_id())
            &&& self.depth@.contains_key(k)
            &&& (self.scope_map@[k].spec_parent() matches Some(p) ==> {
                &&& self.scope_map@.contains_key(p.id)
                &&& self.depth@.contains_key(p.id)
                &&& self.depth@[p.id] < self.depth@[k]
            })
        }
    }

    /// How deep a scope lies in the tree.
    pub closed spec fn scope_depth(&self, id: u64) -> nat {
        self.depth@[id]
    }

    /// What `find_symbol` gives: the innermost declaration found from
    /// `current` outward, otherwise a symbol of the global scope of that name.
    pub closed spec fn spec_find(&self, current: u64, name: Seq<char>) -> Option<Symbol> {
        match chain_lookup(self.scope_map@, current, name, self.depth@[current] + 1) {
            Some(symbol) => Some(symbol),
            None => find_named(self.scope_map@[0].spec_symbols(), name),
        }
    }

    /// Looking up with more fuel than the depth of the scope changes nothing.
    proof fn lemma_fuel(&self, current: u64, name: Seq<char>, fuel: nat)
        requires
            self.wf(),
            self.scope_map@.contains_key(current),
            fuel > self.depth@[current],
        ensures
            chain_lookup(self.scope_map@, current, name, fuel)
                == chain_lookup(self.scope_map@, current, name, self.depth@[current] + 1),
        decreases self.depth@[current],
    {
        let scope = self.scope_map@[current];
        if let Some(p) = scope.spec_parent() {
            assert(self.scope_map@.contains_key(current));
            self.lemma_fuel(p.id, name, (fuel - 1) as nat);
            self.lemma_fuel(p.id, name, self.depth@[current]);
        }
    }

    /// A table holding only the empty global scope, which is also the entry scope.
    pub fn new() -> (r: Self)
        ensures
            r.wf(),
            r.scopes().dom() == set![0u64],
            r.scopes()[0].spec_id().id == 0,
            r.scopes()[0].spec_parent() is None,
            !r.scopes()[0].spec_subroutine(),
            r.scopes()[0].spec_symbols() == Seq::<Symbol>::empty(),
            r.spec_entry_scope().id == 0,
    {
        let mut scope_map: HashMap<u64, SymbolScope> = HashMap::new();
        scope_map.insert(0, SymbolScope::new(ScopeId::global(), None, false));
        let ghost depth = Map::<u64, nat>::empty().insert(0u64, 0nat);
        let r = SymbolTable { scope_map, main_entry_scope: ScopeId::global(), depth: Ghost(depth) };
        assert(r.scope_map@.dom() =~= set![0u64]);
        r
    }

    /// The scope where generation starts.
    pub fn entry_scope(&self) -> (r: ScopeId)
        ensures
            r == self.spec_entry_scope(),
    {
        self.main_entry_scope
    }

    /// Adds the empty scope `current` as a child of `parent`, when `parent`
    /// is in the table; otherwise the table is left as it is.
    pub fn generate_new_scope(&mut self, parent: ScopeId, current: ScopeId, is_subroutine: bool)
        requires
            old(self).wf(),
            !old(self).scopes().contains_key(current.id),
        ensures
            final(self).wf(),
            final(self).spec_entry_scope() == old(self).spec_entry_scope(),
            old(self).scopes().contains_key(parent.id) ==> {
                &&& final(self).scopes() == old(self).scopes().insert(current.id, final(self).scopes()[current.id])
                &&& final(self).scopes()[current.id].spec_id() == current
                &&& final(self).scopes()[current.id].spec_parent() == Some(parent)
                &&& final(self).scopes()[current.id].spec_subroutine() == is_subroutine
                &&& final(self).scopes()[current.id].spec_symbols() == Seq::<Symbol>::empty()
            },
            !old(self).scopes().contains_key(parent.id) ==> final(self).scopes() == old(self).scopes(),
    {
        if self.scope_map.contains_key(&parent.id) {
            let ghost old_map = self.scope_map@;
            let ghost parent_depth = self.depth@[parent.id];
            self.scope_map.insert(current.id, SymbolScope::new(current, Some(parent), is_subroutine));
            self.depth = Ghost(self.depth@.insert(current.id, parent_depth + 1));
            assert forall|k: u64| #[trigger] self.scope_map@.contains_key(k) implies {
                &&& self.scope_map@[k].spec_id().id == k
                &&& self.depth@.contains_key(k)
                &&& (self.scope_map@[k].spec_parent() matches Some(p) ==> {
                    &&& self.scope_map@.contains_key(p.id)
                    &&& self.depth@.contains_key(p.id)
                    &&& self.depth@[p.id] < self.depth@[k]
                })
            } by {
                if k != current.id {
                    assert(old_map.contains_key(k));
                    if let Some(p) = self.scope_map@[k].spec_parent() {
                        assert(old_map.contains_key(p.id));
                        assert(p.id != current.id);
                    }
                }
            }
        }
    }

    /// Declares `symbol` in the scope `scope` (see `SymbolScope::add_symbol`).
    pub fn add_symbol(&mut self, scope: ScopeId, symbol: Symbol) -> (r: bool)
        requires
            old(self).wf(),
            old(self).scopes().contains_key(scope.id),
        ensures
            final(self).wf(),
            final(self).spec_entry_scope() == old(self).spec_entry_scope(),
            r == (find_named(old(self).scopes()[scope.id].spec_symbols(), symbol.spec_identifier()) is None),
            final(self).scopes().dom() == old(self).scopes().dom(),
            forall|k: u64| k != scope.id ==> #[trigger] final(self).scopes()[k] == old(self).scopes()[k],
            final(self).scopes()[scope.id].spec_id() == old(self).scopes()[scope.id].spec_id(),
            final(self).scopes()[scope.id].spec_parent() == old(self).scopes()[scope.id].spec_parent(),
            final(self).scopes()[scope.id].spec_subroutine() == old(self).scopes()[scope.id].spec_subroutine(),
            r ==> final(self).scopes()[scope.id].spec_symbols() == old(self).scopes()[scope.id].spec_symbols().push(
                symbol.placed(scope, old(self).scopes()[scope.id].spec_symbols().len()),
            ),
            !r ==> final(self).scopes()[scope.id].spec_symbols() == old(self).scopes()[scope.id].spec_symbols(),
    {
        let ghost old_map = self.scope_map@;
        let mut target = self.scope_map.remove(&scope.id).unwrap();
        let r = target.add_symbol(symbol);
        self.scope_map.insert(scope.id, target);
        assert(self.scope_map@.dom() =~= old_map.dom());
        assert forall|k: u64| #[trigger] self.scope_map@.contains_key(k) implies {
            &&& self.scope_map@[k].spec_id().id == k
            &&& self.depth@.contains_key(k)
            &&& (self.scope_map@[k].spec_parent() matches Some(p) ==> {
                &&& self.scope_map@.contains_key(p.id)
                &&& self.depth@.contains_key(p.id)
                &&& self.depth@[p.id] < self.depth@[k]
            })
        } by {
            assert(old_map.contains_key(k));
        }
        r
    }

    /// Finds the symbol an identifier denotes from `current_scope`: the
    /// innermost declaration found walking from `current_scope` to its
    /// parents, a walk that stops at a subroutine body; failing that, a
    /// symbol of the global scope. `None` when neither has one.
    pub fn find_symbol(&self, current_scope: ScopeId, identifier: &String) -> (r: Option<&Symbol>)
        requires
            self.wf(),
        ensures
            match r {
                Some(s) => self.spec_find(current_scope.id, identifier@) == Some(*s),
                None => self.spec_find(current_scope.id, identifier@) is None,
            },
            r matches Some(s) ==> {
                &&& self.scopes().contains_key(s.spec_scope_id().id)
                &&& self.scopes()[s.spec_scope_id().id].spec_id() == s.spec_scope_id()
                &&& find_named(self.scopes()[s.spec_scope_id().id].spec_symbols(), identifier@) == Some(*s)
            },
    {
        proof {
            lemma_chain_lookup_origin(self.scope_map@, current_scope.id, identifier@, self.depth@[current_scope.id] + 1);
            if self.spec_find(current_scope.id, identifier@) is Some {
                let s = self.spec_find(current_scope.id, identifier@).unwrap();
                let k = if chain_lookup(self.scope_map@, current_scope.id, identifier@, self.depth@[current_scope.id] + 1)
                    is Some {
                    choose|k: u64| #[trigger] self.scope_map@.contains_key(k) && find_named(self.scope_map@[k].spec_symbols(), identifier@) == Some(s)
                } else {
                    0u64
                };
                assert(self.scope_map@.contains_key(k));
                lemma_find_named_member(self.scope_map@[k].spec_symbols(), identifier@);
                let i = choose|i: int| 0 <= i < self.scope_map@[k].spec_symbols().len() && self.scope_map@[k].spec_symbols()[i] == s;
                assert(self.scope_map@[k].spec_symbols()[i].spec_scope_id() == self.scope_map@[k].spec_id());
                assert(s.spec_scope_id().id == k);
            }
        }
        match self.find_in_chain(current_scope, identifier) {
            Some(symbol) => Some(symbol),
            None => match self.scope_map.get(&0) {
                Some(global_scope) => global_scope.get_symbol(identifier),
                None => None,
            },
        }
    }

    /// The innermost declaration of `identifier` from `current_scope` outward,
    /// stopping after a subroutine body.
    fn find_in_chain(&self, current_scope: ScopeId, identifier: &String) -> (r: Option<&Symbol>)
        requires
            self.wf(),
        ensures
            match r {
                Some(s) => chain_lookup(self.scope_map@, current_scope.id, identifier@, self.depth@[current_scope.id] + 1)
                    == Some(*s),
                None => chain_lookup(self.scope_map@, current_scope.id, identifier@, self.depth@[current_scope.id] + 1) is None,
            },
        decreases self.scope_depth(current_scope.id),
    {
        let symbol_scope = match self.scope_map.get(&current_scope.id) {
            Some(scope) => scope,
            None => return None,
        };
        match symbol_scope.get_symbol(identifier) {
            Some(symbol) => Some(symbol),
            None => {
                if symbol_scope.parent.is_some() && !symbol_scope.subroutine {
                    let parent_id = symbol_scope.parent().unwrap();
                    proof {
                        assert(self.scope_map@.contains_key(current_scope.id));
                        self.lemma_fuel(parent_id.id, identifier@, self.depth@[current_scope.id]);
                    }
                    self.find_in_chain(parent_id, identifier)
                } else {
                    None
                }
            },
        }
    }

    /// The parent of a scope; the global scope when the scope is unknown or has no parent.
    pub fn parent_of(&self, id: ScopeId) -> (r: ScopeId)
        ensures
            r == (if self.scopes().contains_key(id.id) && self.scopes()[id.id].spec_parent() is Some {
                self.scopes()[id.id].spec_parent().unwrap()
            } else {
                ScopeId { id: 0 }
            }),
    {
        match self.scope_map.get(&id.id) {
            Some(scope) => match scope.parent() {
                Some(parent_id) => parent_id,
                None => ScopeId::global(),
            },
            None => ScopeId::global(),
        }
    }


    /// The symbols visible from a scope without the global override: those
    /// of the scope, after those visible from its parent unless the scope is
    /// a subroutine body. At most `fuel` parent links are followed.
    pub open spec fn visible_symbols(scopes: Map<u64, SymbolScope>, current: u64, fuel: nat) -> Seq<Symbol>
        decreases fuel,
    {
        if fuel == 0 || !scopes.contains_key(current) {
            Seq::empty()
        } else {
            let scope = scopes[current];
            if scope.spec_parent() is Some && !scope.spec_subroutine() {
                Self::visible_symbols(scopes, scope.spec_parent().unwrap().id, (fuel - 1) as nat) + scope.spec_symbols()
            } else {
                scope.spec_symbols()
            }
        }
    }

    /// Following more parent links than the depth of the scope changes nothing.
    proof fn lemma_visible_fuel(&self, current: u64, fuel: nat)
        requires
            self.wf(),
            self.scope_map@.contains_key(current),
            fuel > self.depth@[current],
        ensures
            Self::visible_symbols(self.scope_map@, current, fuel) == Self::visible_symbols(
                self.scope_map@,
                current,
                self.depth@[current] + 1,
            ),
        decreases self.depth@[current],
    {
        let scope = self.scope_map@[current];
        if let Some(p) = scope.spec_parent() {
            assert(self.scope_map@.contains_key(current));
            self.lemma_visible_fuel(p.id, (fuel - 1) as nat);
            self.lemma_visible_fuel(p.id, self.depth@[current]);
        }
    }

    /// What `get_symbols_in_scope` gives (see `visible_symbols`).
    pub closed spec fn spec_symbols_in_scope(&self, current: u64) -> Seq<Symbol> {
        Self::visible_symbols(self.scope_map@, current, self.depth@[current] + 1)
    }

    /// Copies of the symbols visible from a scope: those of its enclosing
    /// scopes first (up to a subroutine body), then its own, each scope in
    /// declaration order. Empty for an unknown scope.
    pub fn get_symbols_in_scope(&self, current_scope: ScopeId) -> (r: Vec<Symbol>)
        requires
            self.wf(),
        ensures
            r@.len() == self.spec_symbols_in_scope(current_scope.id).len(),
            forall|k: int|
                0 <= k < r@.len() ==> (#[trigger] r@[k]).same(self.spec_symbols_in_scope(current_scope.id)[k]),
        decreases self.scope_depth(current_scope.id),
    {
        let scope = match self.scope_map.get(&current_scope.id) {
            Some(scope) => scope,
            None => {
                return Vec::new();
            },
        };
        let mut symbols: Vec<Symbol> = Vec::new();
        let ghost expected = self.spec_symbols_in_scope(current_scope.id);
        let ghost own = scope.symbols@;
        let mut prefix_len: usize = 0;
        if scope.parent.is_some() && !scope.subroutine {
            let parent_id = scope.parent().unwrap();
            proof {
                assert(self.scope_map@.contains_key(current_scope.id));
                self.lemma_visible_fuel(parent_id.id, self.depth@[current_scope.id]);
            }
            symbols = self.get_symbols_in_scope(parent_id);
            prefix_len = symbols.len();
        }
        assert(expected =~= Self::visible_symbols(self.scope_map@, current_scope.id, self.depth@[current_scope.id] + 1));
        assert(expected.len() == prefix_len + own.len());
        let mut i: usize = 0;
        while i < scope.symbols.len()
            invariant
                i <= own.len(),
                own == scope.symbols@,
                expected.len() == prefix_len + own.len(),
                symbols@.len() == prefix_len + i,
                forall|k: int| 0 <= k < prefix_len + i ==> (#[trigger] symbols@[k]).same(expected[k]),
                forall|k: int| 0 <= k < own.len() ==> expected[prefix_len + k] == own[k],
            decreases own.len() - i,
        {
            symbols.push(scope.symbols[i].duplicate());
            assert(symbols@[prefix_len + i as int].same(expected[prefix_len + i as int]));
            i = i + 1;
        }
        symbols
    }

    /// A symbol declared in the global scope is what its name denotes from
    /// every scope, as long as no other scope declares that name.
    pub proof fn law_global_symbol_found_unless_shadowed(&self, current: u64, name: Seq<char>)
        requires
            self.wf(),
            forall|k: u64| #[trigger] self.scopes().contains_key(k) && k != 0 ==> find_named(
                self.scopes()[k].spec_symbols(),
                name,
            ) is None,
        ensures
            self.spec_find(current, name) == find_named(self.scopes()[0].spec_symbols(), name),
    {
        lemma_chain_lookup_origin(self.scope_map@, current, name, self.depth@[current] + 1);
    }

    /// Shadowing: a name declared in a scope denotes that scope's own
    /// (latest) symbol, whatever the enclosing and global scopes declare.
    pub proof fn law_innermost_declaration_wins(&self, current: u64, name: Seq<char>)
        requires
            self.wf(),
            self.scopes().contains_key(current),
            find_named(self.scopes()[current].spec_symbols(), name) is Some,
        ensures
            self.spec_find(current, name) == find_named(self.scopes()[current].spec_symbols(), name),
    {
    }

    /// A name a scope does not declare denotes, from a scope that is not a
    /// subroutine body, what it denotes from the parent scope.
    pub proof fn law_lookup_continues_in_parent(&self, current: u64, name: Seq<char>)
        requires
            self.wf(),
            self.scopes().contains_key(current),
            find_named(self.scopes()[current].spec_symbols(), name) is None,
            self.scopes()[current].spec_parent() is Some,
            !self.scopes()[current].spec_subroutine(),
        ensures
            self.spec_find(current, name) == self.spec_find(self.scopes()[current].spec_parent().unwrap().id, name),
    {
        let p = self.scopes()[current].spec_parent().unwrap();
        assert(self.scope_map@.contains_key(current));
        self.lemma_fuel(p.id, name, self.depth@[current]);
    }

    /// A subroutine body sees only its own symbols and the global ones: a
    /// name it does not declare denotes the global symbol, if any.
    pub proof fn law_subroutine_hides_enclosing_scopes(&self, current: u64, name: Seq<char>)
        requires
            self.wf(),
            self.scopes().contains_key(current),
            self.scopes()[current].spec_subroutine(),
            find_named(self.scopes()[current].spec_symbols(), name) is None,
        ensures
            self.spec_find(current, name) == find_named(self.scopes()[0].spec_symbols(), name),
    {
    }

    /// From a scope the table does not hold, only global symbols are found.
    pub proof fn law_unknown_scope_finds_only_globals(&self, current: u64, name: Seq<char>)
        requires
            self.wf(),
            !self.scopes().contains_key(current),
        ensures
            self.spec_find(current, name) == find_named(self.scopes()[0].spec_symbols(), name),
    {
    }

    /// A symbol declared with `add_symbol` is then what its name denotes
    /// from its scope.
    pub proof fn law_added_symbol_is_found(before: &SymbolTable, after: &SymbolTable, scope: ScopeId, symbol: Symbol)
        requires
            before.wf(),
            after.wf(),
            before.scopes().contains_key(scope.id),
            after.scopes().dom() == before.scopes().dom(),
            forall|k: u64| k != scope.id ==> #[trigger] after.scopes()[k] == before.scopes()[k],
            after.scopes()[scope.id].spec_symbols() == before.scopes()[scope.id].spec_symbols().push(
                symbol.placed(scope, before.scopes()[scope.id].spec_symbols().len()),
            ),
            before.scopes()[scope.id].spec_symbols().len() <= usize::MAX,
        ensures
            after.spec_find(scope.id, symbol.spec_identifier()) == Some(
                symbol.placed(scope, before.scopes()[scope.id].spec_symbols().len()),
            ),
    {
        let placed = symbol.placed(scope, before.scopes()[scope.id].spec_symbols().len());
        symbol.lemma_placed(scope, before.scopes()[scope.id].spec_symbols().len());
        let syms = after.scopes()[scope.id].spec_symbols();
        assert(syms.last() == placed);
        assert(find_named(syms, symbol.spec_identifier()) == Some(placed));
        assert(after.scope_map@.contains_key(scope.id));
    }
}

/// A symbol that the walk from `current` finds is declared, under that
/// name, in some scope of the table.
proof fn lemma_chain_lookup_origin(scopes: Map<u64, SymbolScope>, current: u64, name: Seq<char>, fuel: nat)
    ensures
        chain_lookup(scopes, current, name, fuel) matches Some(s) ==> exists|k: u64|
            #[trigger] scopes.contains_key(k) && find_named(scopes[k].spec_symbols(), name) == Some(s),
    decreases fuel,
{
    if fuel > 0 && scopes.contains_key(current) {
        let scope = scopes[current];
        if find_named(scope.spec_symbols(), name) is None && scope.spec_parent() is Some && !scope.spec_subroutine() {
            lemma_chain_lookup_origin(scopes, scope.spec_parent().unwrap().id, name, (fuel - 1) as nat);
        }
    }
}

/// Unique ids tell symbols apart: two symbols with the same unique id are
/// in the same scope and have the same identifier.
pub proof fn law_unique_id_distinguishes_symbols(s1: ScopeId, i1: Seq<char>, s2: ScopeId, i2: Seq<char>)
    requires
        spec_unique_id(s1, i1) == spec_unique_id(s2, i2),
    ensures
        s1 == s2,
        i1 == i2,
{
    let d1 = decimal(s1.id as nat);
    let d2 = decimal(s2.id as nat);
    let u = spec_unique_id(s1, i1);
    lemma_decimal_digits(s1.id as nat);
    lemma_decimal_digits(s2.id as nat);
    if d1.len() < d2.len() {
        assert(u[d1.len() as int] == ':');
        assert(spec_unique_id(s2, i2)[d1.len() as int] == d2[d1.len() as int]);
        assert(false);
    } else if d2.len() < d1.len() {
        assert(spec_unique_id(s2, i2)[d2.len() as int] == ':');
        assert(u[d2.len() as int] == d1[d2.len() as int]);
        assert(false);
    } else {
        assert(u.take(d1.len() as int) =~= d1);
        assert(spec_unique_id(s2, i2).take(d2.len() as int) =~= d2);
        lemma_decimal_injective(s1.id as nat, s2.id as nat);
        assert(u.skip(d1.len() as int + 1) =~= i1);
        assert(spec_unique_id(s2, i2).skip(d2.len() as int + 1) =~= i2);
    }
}

} // verus!
