//! Scope identifiers.
use vstd::prelude::*;

verus! {

/// The unique id of a scope of a program.
#[derive(Debug, Clone, Copy, PartialEq, Eq, Hash, Structural)]
pub struct ScopeId {
    pub id: u64,
}

impl ScopeId {
    /// The default scope id, 0.
    pub fn default() -> (r: Self)
        ensures
            r.id == 0,
    {
        ScopeId { id: 0 }
    }

    /// The global scope id, 0.
    pub fn global() -> (r: Self)
        ensures
            r.id == 0,
    {
        ScopeId::default()
    }

    /// A scope id with a given value.
    pub fn new(id: u64) -> (r: Self)
        ensures
            r.id == id,
    {
        ScopeId { id }
    }

    /// Makes this id equal to `scope`.
    pub fn set(&mut self, scope: ScopeId)
        ensures
            *final(self) == scope,
    {
        self.id = scope.id;
    }
}

/// Generates scope ids 1, 2, 3, ... in turn.
#[derive(Debug, Clone, Copy)]
pub struct ScopeIdGenerator {
    pub previous: ScopeId,
}

impl ScopeIdGenerator {
    /// A generator whose first id is 1.
    pub fn new() -> (r: Self)
        ensures
            r.previous.id == 0,
    {
        ScopeIdGenerator { previous: ScopeId::default() }
    }

    /// The next id: one more than the previous one.
    pub fn next(&mut self) -> (r: Option<ScopeId>)
        requires
            old(self).previous.id < u64::MAX,
        ensures
            (*final(self), r) == spec_next(*old(self)),
            final(self).previous.id == old(self).previous.id + 1,
            r == Some(final(self).previous),
    {
        self.previous = ScopeId::new(self.previous.id + 1);
        Some(self.previous)
    }
}

/// What `next` gives: the generator after the call and the id it returns.
pub open spec fn spec_next(g: ScopeIdGenerator) -> (ScopeIdGenerator, Option<ScopeId>) {
    let id = ScopeId { id: (g.previous.id + 1) as u64 };
    (ScopeIdGenerator { previous: id }, Some(id))
}

/// A generator after `n` calls of `next`.
pub open spec fn after_calls(g: ScopeIdGenerator, n: nat) -> ScopeIdGenerator
    decreases n,
{
    if n == 0 {
        g
    } else {
        spec_next(after_calls(g, (n - 1) as nat)).0
    }
}

/// A fresh generator hands out 1, 2, 3, ...: its `n`-th call gives the id
/// `n`, so the ids are all different and none is the global scope's.
pub proof fn law_generator_counts_up(g: ScopeIdGenerator, n: nat)
    requires
        g.previous.id == 0,
        1 <= n <= u64::MAX,
    ensures
        after_calls(g, (n - 1) as nat).previous.id < u64::MAX,
        spec_next(after_calls(g, (n - 1) as nat)).1 == Some(ScopeId { id: n as u64 }),
        after_calls(g, n).previous.id == n,
    decreases n,
{
    if n > 1 {
        law_generator_counts_up(g, (n - 1) as nat);
    }
}

} // verus!
