//! Tracking of the current scope while walking a program, and of the
//! resource ids given to its variables and parameters.
use vstd::prelude::*;
use crate::ast::datatype::{DataType, array_length_fits};
use crate::ast::scope::ScopeId;
use crate::ast::symbol_table::{Symbol, SymbolTable, SymbolType, spec_unique_id, spec_symbol_array_length};
use crate::text::{str_chars, chars_equal};

verus! {

/// The map an association list stands for: a later entry for a key replaces
/// an earlier one.
pub open spec fn id_map(entries: Seq<(String, usize)>) -> Map<Seq<char>, usize>
    decreases entries.len(),
{
    if entries.len() == 0 {
        Map::empty()
    } else {
        id_map(entries.drop_last()).insert(entries.last().0@, entries.last().1)
    }
}

/// Resource ids by unique symbol id.
pub struct IdMap {
    entries: Vec<(String, usize)>,
}

impl IdMap {
    /// The ids, by unique symbol id.
    pub closed spec fn view(&self) -> Map<Seq<char>, usize> {
        id_map(self.entries@)
    }

    /// An empty map.
    pub fn new() -> (r: Self)
        ensures
            r.view() == Map::<Seq<char>, usize>::empty(),
    {
        IdMap { entries: Vec::new() }
    }

    /// Sets the id of a key.
    pub fn insert(&mut self, key: String, id: usize)
        ensures
            final(self).view() == old(self).view().insert(key@, id),
    {
        self.entries.push((key, id));
        assert(self.entries@.drop_last() =~= old(self).entries@);
    }

    /// The id of a key.
    pub fn get(&self, key: &String) -> (r: Option<usize>)
        ensures
            r == (if self.view().contains_key(key@) { Some(self.view()[key@]) } else { None }),
    {
        let name = str_chars(key.as_str());
        let mut i: usize = self.entries.len();
        assert(self.entries@.take(i as int) =~= self.entries@);
        while i > 0
            invariant
                i <= self.entries@.len(),
                name@ == key@,
                forall|k: Seq<char>|
                    #![trigger id_map(self.entries@).contains_key(k)]
                    !id_map(self.entries@.take(i as int)).contains_key(k) ==> (id_map(self.entries@).contains_key(k)
                        == id_map(self.entries@.take(i as int)).contains_key(k) || k != key@),
                id_map(self.entries@.take(i as int)).contains_key(key@) == id_map(self.entries@).contains_key(key@),
                id_map(self.entries@.take(i as int)).contains_key(key@) ==> id_map(self.entries@.take(i as int))[key@]
                    == id_map(self.entries@)[key@],
            decreases i,
        {
            let candidate = str_chars(self.entries[i - 1].0.as_str());
            let ghost prefix = self.entries@.take(i as int);
            assert(prefix.drop_last() =~= self.entries@.take(i - 1));
            assert(prefix.last() == self.entries@[i - 1]);
            if chars_equal(&candidate, &name) {
                return Some(self.entries[i - 1].1);
            }
            i = i - 1;
        }
        None
    }
}

/// The entries outside the scope `scope`, in order.
pub open spec fn entries_outside(entries: Seq<(ScopeId, String)>, scope: u64) -> Seq<(ScopeId, String)>
    decreases entries.len(),
{
    if entries.len() == 0 {
        Seq::empty()
    } else {
        entries_outside(entries.drop_last(), scope) + if entries.last().0.id != scope {
            seq![entries.last()]
        } else {
            Seq::empty()
        }
    }
}

/// Whether a symbol lookup found a local variable.
pub open spec fn found_variable(found: Option<Symbol>) -> bool {
    found matches Some(s) && s.spec_symbol_type() is Variable
}

/// ScopeTracker follows the current scope through a symbol table while a
/// program is walked, and hands out resource ids: a local id to each
/// variable in declaration order (ids of a left scope are reused), an array
/// id to each array variable (counting its cells), and a parameter id to each
/// parameter, counted afresh in each scope entered.
pub struct ScopeTracker {
    symbol_table: Option<SymbolTable>,
    current_scope: ScopeId,
    symbols_in_scope: Vec<(ScopeId, String)>,
    local_var_ids: IdMap,
    parameter_ids: IdMap,
    array_ids: IdMap,
    local_var_count: usize,
    active_parameter_count: usize,
    array_count: usize,
}

impl ScopeTracker {
    /// The symbol table followed, if any.
    pub closed spec fn table(&self) -> Option<SymbolTable> {
        self.symbol_table
    }

    /// The current scope.
    pub closed spec fn current(&self) -> ScopeId {
        self.current_scope
    }

    /// The symbols declared so far, with the scope each was declared in.
    pub closed spec fn entries(&self) -> Seq<(ScopeId, String)> {
        self.symbols_in_scope@
    }

    /// Local ids by unique symbol id.
    pub closed spec fn local_ids(&self) -> Map<Seq<char>, usize> {
        self.local_var_ids.view()
    }

    /// Parameter ids by unique symbol id.
    pub closed spec fn parameter_ids(&self) -> Map<Seq<char>, usize> {
        self.parameter_ids.view()
    }

    /// Array ids by unique symbol id.
    pub closed spec fn array_ids(&self) -> Map<Seq<char>, usize> {
        self.array_ids.view()
    }

    /// The number of local variables in scope.
    pub closed spec fn local_count(&self) -> nat {
        self.local_var_count as nat
    }

    /// The number of parameters of the current scope.
    pub closed spec fn parameter_count(&self) -> nat {
        self.active_parameter_count as nat
    }

    /// The number of array cells handed out.
    pub closed spec fn array_count(&self) -> nat {
        self.array_count as nat
    }

    /// Well-formedness: the table, if any, is well formed.
    pub closed spec fn wf(&self) -> bool {
        self.symbol_table matches Some(t) ==> t.wf()
    }

    /// Whether a symbol named `name` has been declared in any scope.
    pub open spec fn declared(&self, name: Seq<char>) -> bool {
        exists|k: int| 0 <= k < self.entries().len() && (#[trigger] self.entries()[k]).1@ == name
    }

    /// What `find_symbol` gives: nothing for a name never declared, otherwise
    /// the symbol the table finds from the current scope.
    pub open spec fn spec_find(&self, name: Seq<char>) -> Option<Symbol> {
        if !self.declared(name) {
            None
        } else {
            match self.table() {
                Some(t) => t.spec_find(self.current().id, name),
                None => None,
            }
        }
    }

    /// A tracker without a symbol table, in the global scope.
    pub fn default() -> (r: Self)
        ensures
            r.wf(),
            r.table() is None,
            r.current().id == 0,
            r.entries() == Seq::<(ScopeId, String)>::empty(),
            r.local_ids() == Map::<Seq<char>, usize>::empty(),
            r.parameter_ids() == Map::<Seq<char>, usize>::empty(),
            r.array_ids() == Map::<Seq<char>, usize>::empty(),
            r.local_count() == 0,
            r.parameter_count() == 0,
            r.array_count() == 0,
    {
        ScopeTracker {
            symbol_table: None,
            current_scope: ScopeId::default(),
            symbols_in_scope: Vec::new(),
            local_var_ids: IdMap::new(),
            parameter_ids: IdMap::new(),
            array_ids: IdMap::new(),
            local_var_count: 0,
            active_parameter_count: 0,
            array_count: 0,
        }
    }

    /// A tracker over a symbol table, in its entry scope.
    pub fn new(symbol_table: SymbolTable) -> (r: Self)
        requires
            symbol_table.wf(),
        ensures
            r.wf(),
            r.table() == Some(symbol_table),
            r.current() == symbol_table.spec_entry_scope(),
            r.entries() == Seq::<(ScopeId, String)>::empty(),
            r.local_ids() == Map::<Seq<char>, usize>::empty(),
            r.parameter_ids() == Map::<Seq<char>, usize>::empty(),
            r.array_ids() == Map::<Seq<char>, usize>::empty(),
            r.local_count() == 0,
            r.parameter_count() == 0,
            r.array_count() == 0,
    {
        let entry = symbol_table.entry_scope();
        ScopeTracker {
            symbol_table: Some(symbol_table),
            current_scope: entry,
            symbols_in_scope: Vec::new(),
            local_var_ids: IdMap::new(),
            parameter_ids: IdMap::new(),
            array_ids: IdMap::new(),
            local_var_count: 0,
            active_parameter_count: 0,
            array_count: 0,
        }
    }

    /// Enters a scope; the parameter count starts again from 0.
    pub fn enter_scope(&mut self, id: ScopeId)
        ensures
            final(self).current() == id,
            final(self).parameter_count() == 0,
            final(self).table() == old(self).table(),
            final(self).wf() == old(self).wf(),
            final(self).entries() == old(self).entries(),
            final(self).local_ids() == old(self).local_ids(),
            final(self).parameter_ids() == old(self).parameter_ids(),
            final(self).array_ids() == old(self).array_ids(),
            final(self).local_count() == old(self).local_count(),
            final(self).array_count() == old(self).array_count(),
    {
        self.current_scope.set(id);
        self.active_parameter_count = 0;
    }

    /// The number of declared variables of the current scope that leaving it drops.
    pub open spec fn spec_removed(&self, k: int) -> nat
        decreases k,
    {
        if k <= 0 {
            0
        } else {
            self.spec_removed(k - 1) + if self.entries()[k - 1].0 == self.current() && found_variable(
                self.spec_find(self.entries()[k - 1].1@),
            ) {
                1nat
            } else {
                0nat
            }
        }
    }

    /// Leaves the current scope for its parent (the global scope when there
    /// is none or no table). The symbols declared in it leave scope, and the
    /// variables among them are dropped from the local count, which is returned.
    pub fn exit_scope(&mut self) -> (r: usize)
        requires
            old(self).wf(),
            old(self).spec_removed(old(self).entries().len() as int) <= old(self).local_count(),
        ensures
            final(self).wf(),
            r == old(self).spec_removed(old(self).entries().len() as int),
            final(self).local_count() == old(self).local_count() - r,
            final(self).entries() == entries_outside(old(self).entries(), old(self).current().id),
            final(self).current() == (match old(self).table() {
                Some(t) => if t.scopes().contains_key(old(self).current().id) && t.scopes()[old(
                    self,
                ).current().id].spec_parent() is Some {
                    t.scopes()[old(self).current().id].spec_parent().unwrap()
                } else {
                    ScopeId { id: 0 }
                },
                None => ScopeId { id: 0 },
            }),
            final(self).table() == old(self).table(),
            final(self).local_ids() == old(self).local_ids(),
            final(self).parameter_ids() == old(self).parameter_ids(),
            final(self).array_ids() == old(self).array_ids(),
            final(self).parameter_count() == old(self).parameter_count(),
            final(self).array_count() == old(self).array_count(),
    {
        let new_scope_id = match &self.symbol_table {
            Some(symbol_table) => symbol_table.parent_of(self.current_scope),
            None => ScopeId::global(),
        };
        let mut removed: usize = 0;
        let mut kept: Vec<(ScopeId, String)> = Vec::new();
        let n = self.symbols_in_scope.len();
        let mut i: usize = 0;
        while i < n
            invariant
                n == self.entries().len(),
                i <= n,
                self.wf(),
                old(self).spec_removed(old(self).entries().len() as int) <= old(self).local_count(),
                *self == *old(self),
                removed == self.spec_removed(i as int),
                kept@ == entries_outside(self.entries().take(i as int), self.current().id),
            decreases n - i,
        {
            proof {
                lemma_removed_monotone(self, i + 1, n as int);
                assert(self.entries().take(i + 1).drop_last() =~= self.entries().take(i as int));
                assert(self.entries().take(i + 1).last() == self.entries()[i as int]);
            }
            let entry_scope = self.symbols_in_scope[i].0;
            if entry_scope.id == self.current_scope.id {
                let found = self.find_symbol(&self.symbols_in_scope[i].1);
                let is_var = match found {
                    Some(symbol) => symbol.is_variable(),
                    None => false,
                };
                if is_var {
                    removed = removed + 1;
                }
            } else {
                let name = self.symbols_in_scope[i].1.clone();
                kept.push((entry_scope, name));
                proof {
                    assert(kept@.last() == self.entries()[i as int]);
                }
            }
            assert(kept@ =~= entries_outside(self.entries().take(i + 1), self.current().id));
            i = i + 1;
        }
        assert(self.entries().take(n as int) =~= self.entries());
        self.symbols_in_scope = kept;
        self.local_var_count = self.local_var_count - removed;
        self.current_scope.set(new_scope_id);
        removed
    }

    /// The symbol a declared name denotes from the current scope (see `spec_find`).
    pub fn find_symbol(&self, identifier: &String) -> (r: Option<&Symbol>)
        requires
            self.wf(),
        ensures
            match r {
                Some(s) => self.spec_find(identifier@) == Some(*s),
                None => self.spec_find(identifier@) is None,
            },
    {
        let name = str_chars(identifier.as_str());
        let mut declared = false;
        let mut k: usize = 0;
        while k < self.symbols_in_scope.len()
            invariant
                k <= self.entries().len(),
                name@ == identifier@,
                declared == exists|j: int| 0 <= j < k && (#[trigger] self.entries()[j]).1@ == identifier@,
            decreases self.entries().len() - k,
        {
            let candidate = str_chars(self.symbols_in_scope[k].1.as_str());
            if chars_equal(&candidate, &name) {
                declared = true;
            }
            k = k + 1;
        }
        if !declared {
            return None;
        }
        match &self.symbol_table {
            Some(symbol_table) => symbol_table.find_symbol(self.current_scope, identifier),
            None => None,
        }
    }

    /// Declares a symbol of the current scope, so that it can be found from
    /// now on, and gives it its resource ids: a variable the next local id
    /// (and, for an array, the next array id, advancing by its cell count), a
    /// parameter the next parameter id.
    pub fn add_symbol(&mut self, identifier: String)
        requires
            old(self).wf(),
            old(self).table() matches Some(t) && t.spec_find(old(self).current().id, identifier@) matches Some(
                sym,
            ) && {
                &&& (sym.spec_symbol_type() matches SymbolType::Variable(d) ==> array_length_fits(d))
                &&& (sym.spec_symbol_type() is Variable ==> old(self).local_count() < usize::MAX)
                &&& (sym.spec_symbol_type() is Variable ==> old(self).array_count() + spec_symbol_array_length(
                    sym.spec_symbol_type(),
                ) <= usize::MAX)
                &&& (sym.spec_symbol_type() is Parameter ==> old(self).parameter_count() < usize::MAX)
            },
        ensures
            final(self).wf(),
            final(self).table() == old(self).table(),
            final(self).current() == old(self).current(),
            final(self).declared(identifier@),
            forall|k: int| 0 <= k < old(self).entries().len() ==> #[trigger] final(self).entries()[k] == old(self).entries()[k],
            final(self).entries().len() == old(self).entries().len() || final(self).entries() == old(self).entries().push(
                (old(self).current(), identifier),
            ),
            ({
                let sym = old(self).table().unwrap().spec_find(old(self).current().id, identifier@).unwrap();
                let uid = spec_unique_id(sym.spec_scope_id(), sym.spec_identifier());
                match sym.spec_symbol_type() {
                    SymbolType::Variable(d) => {
                        &&& final(self).local_ids() == old(self).local_ids().insert(uid, old(self).local_count() as usize)
                        &&& final(self).local_count() == old(self).local_count() + 1
                        &&& final(self).parameter_ids() == old(self).parameter_ids()
                        &&& final(self).parameter_count() == old(self).parameter_count()
                        &&& if d is ARRAY {
                            &&& final(self).array_ids() == old(self).array_ids().insert(uid, old(self).array_count() as usize)
                            &&& final(self).array_count() == old(self).array_count() + spec_symbol_array_length(
                                sym.spec_symbol_type(),
                            )
                        } else {
                            &&& final(self).array_ids() == old(self).array_ids()
                            &&& final(self).array_count() == old(self).array_count()
                        }
                    },
                    SymbolType::Parameter(_) => {
                        &&& final(self).parameter_ids() == old(self).parameter_ids().insert(
                            uid,
                            old(self).parameter_count() as usize,
                        )
                        &&& final(self).parameter_count() == old(self).parameter_count() + 1
                        &&& final(self).local_ids() == old(self).local_ids()
                        &&& final(self).local_count() == old(self).local_count()
                        &&& final(self).array_ids() == old(self).array_ids()
                        &&& final(self).array_count() == old(self).array_count()
                    },
                    _ => {
                        &&& final(self).local_ids() == old(self).local_ids()
                        &&& final(self).local_count() == old(self).local_count()
                        &&& final(self).parameter_ids() == old(self).parameter_ids()
                        &&& final(self).parameter_count() == old(self).parameter_count()
                        &&& final(self).array_ids() == old(self).array_ids()
                        &&& final(self).array_count() == old(self).array_count()
                    },
                }
            }),
    {
        let name = str_chars(identifier.as_str());
        let mut present = false;
        let mut k: usize = 0;
        while k < self.symbols_in_scope.len()
            invariant
                k <= self.entries().len(),
                name@ == identifier@,
                present ==> self.declared(identifier@),
            decreases self.entries().len() - k,
        {
            let candidate = str_chars(self.symbols_in_scope[k].1.as_str());
            if self.symbols_in_scope[k].0.id == self.current_scope.id && chars_equal(&candidate, &name) {
                present = true;
            }
            k = k + 1;
        }
        if !present {
            self.symbols_in_scope.push((self.current_scope, identifier.clone()));
            assert(self.entries()[self.entries().len() - 1].1@ == identifier@);
        }
        assert(self.declared(identifier@));
        let ghost entries_now = self.entries();
        let symbol = self.find_symbol(&identifier).unwrap();
        let unique_id = symbol.unique_id();
        let is_variable = symbol.is_variable();
        let is_array = symbol.is_array();
        let is_parameter = match symbol.symbol_type() {
            SymbolType::Parameter(_) => true,
            _ => false,
        };
        let length = symbol.array_length();
        if is_variable {
            if is_array {
                let array_count = self.array_count;
                self.array_count = self.array_count + length;
                self.array_ids.insert(unique_id.clone(), array_count);
                self.local_var_ids.insert(unique_id, self.local_var_count);
                self.local_var_count = self.local_var_count + 1;
            } else {
                self.local_var_ids.insert(unique_id, self.local_var_count);
                self.local_var_count = self.local_var_count + 1;
            }
        } else if is_parameter {
            self.parameter_ids.insert(unique_id, self.active_parameter_count);
            self.active_parameter_count = self.active_parameter_count + 1;
        }
        assert(self.entries() == entries_now);
    }

    /// The local id of a declared variable in scope.
    pub fn get_local_id(&self, identifier: &String) -> (r: Option<usize>)
        requires
            self.wf(),
        ensures
            r == (match self.spec_find(identifier@) {
                Some(s) => {
                    let uid = spec_unique_id(s.spec_scope_id(), s.spec_identifier());
                    if self.local_ids().contains_key(uid) { Some(self.local_ids()[uid]) } else { None }
                },
                None => None,
            }),
    {
        match self.find_symbol(identifier) {
            Some(symbol) => self.local_var_ids.get(&symbol.unique_id()),
            None => None,
        }
    }

    /// The array id of a declared array variable in scope.
    pub fn get_array_id(&self, identifier: &String) -> (r: Option<usize>)
        requires
            self.wf(),
        ensures
            r == (match self.spec_find(identifier@) {
                Some(s) => {
                    let uid = spec_unique_id(s.spec_scope_id(), s.spec_identifier());
                    if self.array_ids().contains_key(uid) { Some(self.array_ids()[uid]) } else { None }
                },
                None => None,
            }),
    {
        match self.find_symbol(identifier) {
            Some(symbol) => self.array_ids.get(&symbol.unique_id()),
            None => None,
        }
    }

    /// The parameter id of a declared parameter in scope.
    pub fn get_param_id(&self, identifier: &String) -> (r: Option<usize>)
        requires
            self.wf(),
        ensures
            r == (match self.spec_find(identifier@) {
                Some(s) => {
                    let uid = spec_unique_id(s.spec_scope_id(), s.spec_identifier());
                    if self.parameter_ids().contains_key(uid) { Some(self.parameter_ids()[uid]) } else { None }
                },
                None => None,
            }),
    {
        match self.find_symbol(identifier) {
            Some(symbol) => self.parameter_ids.get(&symbol.unique_id()),
            None => None,
        }
    }
}

/// The count of dropped variables grows along the entries.
proof fn lemma_removed_monotone(t: &ScopeTracker, i: int, j: int)
    requires
        0 <= i <= j,
    ensures
        t.spec_removed(i) <= t.spec_removed(j),
    decreases j - i,
{
    if i < j {
        lemma_removed_monotone(t, i, j - 1);
    }
}

/// A name that has not been declared is not found, even when the symbol
/// table holds a symbol of that name in scope.
pub proof fn law_undeclared_name_not_found(tracker: &ScopeTracker, name: Seq<char>)
    requires
        !tracker.declared(name),
    ensures
        tracker.spec_find(name) is None,
{
}

/// Leaving a scope forgets the names declared only in it, and keeps every
/// entry of the other scopes.
pub proof fn law_exit_forgets_scope(entries: Seq<(ScopeId, String)>, scope: u64, name: Seq<char>)
    ensures
        (forall|k: int| 0 <= k < entries.len() && (#[trigger] entries[k]).1@ == name ==> entries[k].0.id == scope)
            ==> !(exists|k: int|
            0 <= k < entries_outside(entries, scope).len() && (#[trigger] entries_outside(entries, scope)[k]).1@ == name),
        forall|k: int|
            0 <= k < entries_outside(entries, scope).len() ==> (#[trigger] entries_outside(entries, scope)[k]).0.id != scope,
    decreases entries.len(),
{
    if entries.len() > 0 {
        let rest = entries.drop_last();
        law_exit_forgets_scope(rest, scope, name);
        let out = entries_outside(entries, scope);
        let out_rest = entries_outside(rest, scope);
        assert forall|k: int| 0 <= k < out.len() implies (#[trigger] out[k]).0.id != scope by {
            if k < out_rest.len() {
                assert(out[k] == out_rest[k]);
            }
        }
        if forall|j: int| 0 <= j < entries.len() && (#[trigger] entries[j]).1@ == name ==> entries[j].0.id == scope {
            assert forall|k: int| 0 <= k < rest.len() && (#[trigger] rest[k]).1@ == name implies rest[k].0.id == scope by {
                assert(rest[k] == entries[k]);
            }
        }
        if forall|j: int| 0 <= j < entries.len() && (#[trigger] entries[j]).1@ == name ==> entries[j].0.id == scope {
            assert forall|k: int| 0 <= k < out.len() implies (#[trigger] out[k]).1@ != name by {
                if k < out_rest.len() {
                    assert(out[k] == out_rest[k]);
                } else {
                    assert(out[k] == entries.last());
                    assert(entries.last() == entries[entries.len() - 1]);
                }
            }
        }
    }
}

} // verus!
