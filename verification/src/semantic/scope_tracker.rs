//! The light scope tracker of semantic analysis: the symbol types declared
//! in each open scope, and the return type each open function body settles on.
use vstd::prelude::*;
use crate::ast::datatype::{DataType, spec_type_eq};
use crate::ast::symbol_table::SymbolType;
use crate::text::{str_chars, chars_equal};

verus! {

/// The type of the last entry of a scope named `name`, if any.
pub open spec fn scope_lookup(scope: Seq<(String, SymbolType)>, name: Seq<char>) -> Option<SymbolType>
    decreases scope.len(),
{
    if scope.len() == 0 {
        None
    } else if scope.last().0@ == name {
        Some(scope.last().1)
    } else {
        scope_lookup(scope.drop_last(), name)
    }
}

/// The type `name` has in the innermost scope that declares it.
pub open spec fn scopes_lookup(scopes: Seq<Seq<(String, SymbolType)>>, name: Seq<char>) -> Option<SymbolType>
    decreases scopes.len(),
{
    if scopes.len() == 0 {
        None
    } else {
        match scope_lookup(scopes.last(), name) {
            Some(t) => Some(t),
            None => scopes_lookup(scopes.drop_last(), name),
        }
    }
}

/// The scopes of semantic analysis, innermost last, and the return type of
/// each function body entered (`None` until a `return` settles it).
pub struct ScopeTracker {
    scopes: Vec<Vec<(String, SymbolType)>>,
    return_types: Vec<Option<DataType>>,
}

impl ScopeTracker {
    /// The declarations of each open scope, outermost first.
    pub closed spec fn scopes(&self) -> Seq<Seq<(String, SymbolType)>> {
        self.scopes@.map_values(|s: Vec<(String, SymbolType)>| s@)
    }

    /// The return types of the open scopes, one per scope entered.
    pub closed spec fn return_types(&self) -> Seq<Option<DataType>> {
        self.return_types@
    }

    /// The outermost scope is always open, and every entered scope has a return type slot.
    pub closed spec fn wf(&self) -> bool {
        &&& self.scopes@.len() >= 1
        &&& self.return_types@.len() + 1 == self.scopes@.len()
    }

    /// A tracker with only the outermost scope open.
    pub fn new() -> (r: Self)
        ensures
            r.wf(),
            r.scopes() == seq![Seq::<(String, SymbolType)>::empty()],
            r.return_types() == Seq::<Option<DataType>>::empty(),
    {
        let mut scopes: Vec<Vec<(String, SymbolType)>> = Vec::new();
        scopes.push(Vec::new());
        let r = ScopeTracker { scopes, return_types: Vec::new() };
        assert(r.scopes() =~= seq![Seq::<(String, SymbolType)>::empty()]);
        r
    }

    /// Opens a scope with no declaration and no return type yet.
    pub fn enter_scope(&mut self)
        requires
            old(self).wf(),
        ensures
            final(self).wf(),
            final(self).scopes() == old(self).scopes().push(Seq::<(String, SymbolType)>::empty()),
            final(self).return_types() == old(self).return_types().push(None),
    {
        self.scopes.push(Vec::new());
        self.return_types.push(None);
        assert(self.scopes() =~= old(self).scopes().push(Seq::<(String, SymbolType)>::empty()));
    }

    /// Closes the innermost scope; the outermost scope stays open.
    pub fn exit_scope(&mut self)
        requires
            old(self).wf(),
        ensures
            final(self).wf(),
            old(self).scopes().len() > 1 ==> final(self).scopes() == old(self).scopes().drop_last()
                && final(self).return_types() == old(self).return_types().drop_last(),
            old(self).scopes().len() <= 1 ==> final(self).scopes() == old(self).scopes() && final(self).return_types()
                == old(self).return_types(),
    {
        if self.scopes.len() > 1 {
            self.scopes.pop();
            self.return_types.pop();
            assert(self.scopes() =~= old(self).scopes().drop_last());
        }
    }

    /// Declares a symbol type in the innermost scope, which must not already
    /// declare that name.
    pub fn add_symbol(&mut self, identifier: &String, symbol_type: SymbolType)
        requires
            old(self).wf(),
            scope_lookup(old(self).scopes().last(), identifier@) is None,
        ensures
            final(self).wf(),
            final(self).return_types() == old(self).return_types(),
            final(self).scopes().len() == old(self).scopes().len(),
            final(self).scopes().drop_last() == old(self).scopes().drop_last(),
            final(self).scopes().last().drop_last() == old(self).scopes().last(),
            final(self).scopes().last().last().0@ == identifier@,
            final(self).scopes().last().last().1 == symbol_type,
    {
        let ghost old_scopes = self.scopes();
        let mut current = self.scopes.pop().unwrap();
        proof {
            assert(old_scopes.last() == current@);
        }
        current.push((identifier.clone(), symbol_type));
        self.scopes.push(current);
        assert(self.scopes().drop_last() =~= old_scopes.drop_last());
    }

    /// The type of a name in the innermost scope that declares it.
    pub fn find_symbol(&self, identifier: &String) -> (r: Option<&SymbolType>)
        ensures
            match r {
                Some(t) => scopes_lookup(self.scopes(), identifier@) == Some(*t),
                None => scopes_lookup(self.scopes(), identifier@) is None,
            },
    {
        let name = str_chars(identifier.as_str());
        let mut k: usize = self.scopes.len();
        assert(self.scopes().take(k as int) =~= self.scopes());
        while k > 0
            invariant
                k <= self.scopes@.len(),
                name@ == identifier@,
                scopes_lookup(self.scopes().take(k as int), identifier@) == scopes_lookup(self.scopes(), identifier@),
            decreases k,
        {
            let scope = &self.scopes[k - 1];
            let mut i: usize = scope.len();
            assert(scope@.take(i as int) =~= scope@);
            while i > 0
                invariant
                    i <= scope@.len(),
                    0 < k <= self.scopes@.len(),
                    *scope == self.scopes@[k - 1],
                    name@ == identifier@,
                    scopes_lookup(self.scopes().take(k as int), identifier@) == scopes_lookup(self.scopes(), identifier@),
                    scope_lookup(scope@.take(i as int), identifier@) == scope_lookup(scope@, identifier@),
                decreases i,
            {
                let candidate = str_chars(scope[i - 1].0.as_str());
                assert(scope@.take(i as int).last() == scope@[i - 1]);
                if chars_equal(&candidate, &name) {
                    assert(self.scopes().take(k as int).last() == scope@);
                    return Some(&scope[i - 1].1);
                }
                assert(scope@.take(i as int).drop_last() =~= scope@.take(i - 1));
                i = i - 1;
            }
            assert(scope@.take(0) =~= Seq::<(String, SymbolType)>::empty());
            assert(self.scopes().take(k as int).last() == scope@);
            assert(self.scopes().take(k as int).drop_last() =~= self.scopes().take(k - 1));
            k = k - 1;
        }
        None
    }

    /// Settles the return type of the innermost function body. Every
    /// `return` of a body must give the same type as the first one.
    pub fn add_return_type(&mut self, identifier: &String, datatype: &DataType)
        requires
            old(self).wf(),
            old(self).return_types().len() > 0,
            old(self).return_types().last() matches Some(t) ==> spec_type_eq(t, *datatype),
        ensures
            final(self).wf(),
            final(self).scopes() == old(self).scopes(),
            final(self).return_types() == old(self).return_types().update(
                old(self).return_types().len() - 1,
                Some(*datatype),
            ),
    {
        let last = self.return_types.len() - 1;
        let new_type = match &self.return_types[last] {
            Some(_) => datatype.clone(),
            None => datatype.clone(),
        };
        self.return_types.set(last, Some(new_type));
    }

    /// The return type of the innermost function body; `NONE` until settled.
    pub fn get_return_type(&self) -> (r: &DataType)
        requires
            self.wf(),
            self.return_types().len() > 0,
        ensures
            *r == (match self.return_types().last() {
                Some(t) => t,
                None => DataType::NONE,
            }),
    {
        match &self.return_types[self.return_types.len() - 1] {
            Some(datatype) => datatype,
            None => &DataType::NONE,
        }
    }
}

/// A name declared in the innermost scope denotes that declaration; any
/// other name denotes what it denotes in the enclosing scopes.
pub proof fn law_innermost_scope_shadows(
    scopes: Seq<Seq<(String, SymbolType)>>,
    scope: Seq<(String, SymbolType)>,
    name: Seq<char>,
)
    ensures
        scope_lookup(scope, name) is Some ==> scopes_lookup(scopes.push(scope), name) == scope_lookup(scope, name),
        scope_lookup(scope, name) is None ==> scopes_lookup(scopes.push(scope), name) == scopes_lookup(scopes, name),
{
    assert(scopes.push(scope).drop_last() =~= scopes);
}

/// A declaration just added to the innermost scope is what its name denotes.
pub proof fn law_added_symbol_found(
    scopes: Seq<Seq<(String, SymbolType)>>,
    name: String,
    symbol_type: SymbolType,
)
    requires
        scopes.len() > 0,
    ensures
        scopes_lookup(scopes.drop_last().push(scopes.last().push((name, symbol_type))), name@) == Some(symbol_type),
{
    let inner = scopes.last().push((name, symbol_type));
    assert(scopes.drop_last().push(inner).drop_last() =~= scopes.drop_last());
    assert(inner.last() == (name, symbol_type));
}

} // verus!
