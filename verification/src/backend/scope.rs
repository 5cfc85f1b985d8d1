//! The stack of scope levels the bytecode generator walks through.
use vstd::prelude::*;
use crate::backend::symbols::BarracudaSymbol;
use crate::text::{str_chars, chars_equal};

verus! {

/// The symbol of a level named `name`, if any (the last one of that name).
pub open spec fn level_find(level: Seq<BarracudaSymbol>, name: Seq<char>) -> Option<BarracudaSymbol>
    decreases level.len(),
{
    if level.len() == 0 {
        None
    } else if level.last().name@ == name {
        Some(level.last())
    } else {
        level_find(level.drop_last(), name)
    }
}

/// The symbol `name` denotes in a stack of levels: that of the innermost
/// (last) level that declares it.
pub open spec fn levels_find(levels: Seq<Seq<BarracudaSymbol>>, name: Seq<char>) -> Option<BarracudaSymbol>
    decreases levels.len(),
{
    if levels.len() == 0 {
        None
    } else {
        match level_find(levels.last(), name) {
            Some(symbol) => Some(symbol),
            None => levels_find(levels.drop_last(), name),
        }
    }
}

/// No two symbols of a level share a name.
pub open spec fn distinct_names(level: Seq<BarracudaSymbol>) -> bool {
    forall|i: int, j: int| 0 <= i < j < level.len() ==> (#[trigger] level[i]).name@ != (#[trigger] level[j]).name@
}

/// A level after declaring `symbol` in it: the symbol replaces the one of
/// the same name, or is appended.
pub open spec fn level_insert(level: Seq<BarracudaSymbol>, symbol: BarracudaSymbol) -> Seq<BarracudaSymbol> {
    if exists|i: int| 0 <= i < level.len() && (#[trigger] level[i]).name@ == symbol.name@ {
        let i = choose|i: int| 0 <= i < level.len() && (#[trigger] level[i]).name@ == symbol.name@;
        level.update(i, symbol)
    } else {
        level.push(symbol)
    }
}

/// The number of mutable symbols of a level.
pub open spec fn count_mutable(level: Seq<BarracudaSymbol>) -> nat
    decreases level.len(),
{
    if level.len() == 0 {
        0
    } else {
        count_mutable(level.drop_last()) + if level.last().mutable { 1nat } else { 0nat }
    }
}

/// The number of mutable symbols of all levels.
pub open spec fn sum_mutable(levels: Seq<Seq<BarracudaSymbol>>) -> nat
    decreases levels.len(),
{
    if levels.len() == 0 {
        0
    } else {
        sum_mutable(levels.drop_last()) + count_mutable(levels.last())
    }
}

/// Replacing one symbol of a level changes its mutable count by the difference.
proof fn lemma_count_update(level: Seq<BarracudaSymbol>, i: int, symbol: BarracudaSymbol)
    requires
        0 <= i < level.len(),
    ensures
        count_mutable(level.update(i, symbol)) + (if level[i].mutable { 1int } else { 0int })
            == count_mutable(level) + (if symbol.mutable { 1int } else { 0int }),
    decreases level.len(),
{
    let updated = level.update(i, symbol);
    if i == level.len() - 1 {
        assert(updated.drop_last() =~= level.drop_last());
    } else {
        lemma_count_update(level.drop_last(), i, symbol);
        assert(updated.drop_last() =~= level.drop_last().update(i, symbol));
    }
}

/// BarracudaScope tracks the symbols in scope while the generator walks
/// through nested scopes: one level per scope, innermost last.
pub struct BarracudaScope {
    scope_levels: Vec<Vec<BarracudaSymbol>>,
    scope_mutable_size: usize,
    scope_mutable_max_size: usize,
    /// The number of mutable symbols declared so far, in all scopes.
    pub scope_total_mutable: usize,
}

impl BarracudaScope {
    /// The levels, outermost first.
    pub closed spec fn levels(&self) -> Seq<Seq<BarracudaSymbol>> {
        self.scope_levels@.map_values(|level: Vec<BarracudaSymbol>| level@)
    }

    /// The number of mutable symbols in the live levels, as counted on declaration.
    pub closed spec fn mutable_size(&self) -> nat {
        self.scope_mutable_size as nat
    }

    /// The number of mutable symbols declared so far.
    pub closed spec fn total_mutable(&self) -> nat {
        self.scope_total_mutable as nat
    }

    /// The largest number of live mutable symbols seen so far.
    pub closed spec fn mutable_max_size(&self) -> nat {
        self.scope_mutable_max_size as nat
    }

    /// Well-formedness: names are distinct within a level, and the live
    /// mutable symbols are at most the counted size, which is at most both
    /// the maximum and the total.
    pub closed spec fn wf(&self) -> bool {
        &&& forall|k: int| 0 <= k < self.scope_levels@.len() ==> distinct_names(#[trigger] self.scope_levels@[k]@)
        &&& sum_mutable(self.levels()) <= self.scope_mutable_size
        &&& self.scope_mutable_size <= self.scope_mutable_max_size
        &&& self.scope_mutable_size <= self.scope_total_mutable
    }

    /// A scope with no level and no symbol.
    pub fn new() -> (r: BarracudaScope)
        ensures
            r.wf(),
            r.levels() == Seq::<Seq<BarracudaSymbol>>::empty(),
            r.mutable_size() == 0,
            r.mutable_max_size() == 0,
            r.total_mutable() == 0,
    {
        let r = BarracudaScope {
            scope_levels: Vec::new(),
            scope_mutable_size: 0,
            scope_mutable_max_size: 0,
            scope_total_mutable: 0,
        };
        assert(r.levels() =~= Seq::<Seq<BarracudaSymbol>>::empty());
        r
    }

    /// A copy of the symbol named `symbol_name` in the innermost level that declares it.
    pub fn get_symbol(&self, symbol_name: &String) -> (r: Option<BarracudaSymbol>)
        ensures
            match r {
                Some(s) => levels_find(self.levels(), symbol_name@) matches Some(t) && s.same(t),
                None => levels_find(self.levels(), symbol_name@) is None,
            },
    {
        let name = str_chars(symbol_name.as_str());
        let mut k: usize = self.scope_levels.len();
        assert(self.levels().take(k as int) =~= self.levels());
        while k > 0
            invariant
                k <= self.scope_levels@.len(),
                name@ == symbol_name@,
                levels_find(self.levels().take(k as int), symbol_name@) == levels_find(self.levels(), symbol_name@),
            decreases k,
        {
            let level = &self.scope_levels[k - 1];
            let mut i: usize = level.len();
            assert(level@.take(i as int) =~= level@);
            while i > 0
                invariant
                    i <= level@.len(),
                    0 < k <= self.scope_levels@.len(),
                    *level == self.scope_levels@[k - 1],
                    name@ == symbol_name@,
                    levels_find(self.levels().take(k as int), symbol_name@) == levels_find(self.levels(), symbol_name@),
                    level_find(level@.take(i as int), symbol_name@) == level_find(level@, symbol_name@),
                decreases i,
            {
                let candidate = str_chars(level[i - 1].name.as_str());
                assert(level@.take(i as int).last() == level@[i - 1]);
                if chars_equal(&candidate, &name) {
                    assert(self.levels().take(k as int).last() == level@);
                    return Some(level[i - 1].duplicate());
                }
                assert(level@.take(i as int).drop_last() =~= level@.take(i - 1));
                i = i - 1;
            }
            assert(level@.take(0) =~= Seq::<BarracudaSymbol>::empty());
            assert(self.levels().take(k as int).last() == level@);
            assert(self.levels().take(k as int).drop_last() =~= self.levels().take(k - 1));
            k = k - 1;
        }
        None
    }

    /// The unique id the next mutable symbol gets.
    pub fn next_mutable_id(&self) -> (r: usize)
        ensures
            r == self.total_mutable(),
    {
        self.scope_total_mutable
    }

    /// Declares a symbol in the innermost level, replacing one of the same
    /// name there. A mutable symbol counts towards the live and total counts.
    pub fn add_symbol(&mut self, symbol: BarracudaSymbol)
        requires
            old(self).wf(),
            old(self).levels().len() > 0,
            symbol.mutable ==> old(self).total_mutable() < usize::MAX,
        ensures
            final(self).wf(),
            final(self).levels() == old(self).levels().drop_last().push(level_insert(old(self).levels().last(), symbol)),
            levels_find(final(self).levels(), symbol.name@) == Some(symbol),
            final(self).mutable_size() == old(self).mutable_size() + if symbol.mutable { 1nat } else { 0nat },
            final(self).total_mutable() == old(self).total_mutable() + if symbol.mutable { 1nat } else { 0nat },
            final(self).mutable_max_size() == if final(self).mutable_size() > old(self).mutable_max_size() {
                final(self).mutable_size()
            } else {
                old(self).mutable_max_size()
            },
    {
        let ghost old_levels = self.levels();
        if symbol.mutable {
            self.scope_mutable_size = self.scope_mutable_size + 1;
            self.scope_total_mutable = self.scope_total_mutable + 1;
        }
        if self.scope_mutable_size > self.scope_mutable_max_size {
            self.scope_mutable_max_size = self.scope_mutable_size;
        }
        let mut level = self.scope_levels.pop().unwrap();
        let ghost before = level@;
        assert(distinct_names(before)) by {
            assert(old(self).scope_levels@[old(self).scope_levels@.len() - 1] == level);
        }
        let name = str_chars(symbol.name.as_str());
        let mut found: Option<usize> = None;
        let mut i: usize = 0;
        while i < level.len()
            invariant_except_break
                found is None,
                forall|j: int| 0 <= j < i ==> (#[trigger] before[j]).name@ != symbol.name@,
            invariant
                i <= level@.len(),
                level@ == before,
                name@ == symbol.name@,
            ensures
                found is None ==> forall|j: int| 0 <= j < before.len() ==> (#[trigger] before[j]).name@ != symbol.name@,
                found matches Some(f) ==> f < before.len() && before[f as int].name@ == symbol.name@,
            decreases level@.len() - i,
        {
            let candidate = str_chars(level[i].name.as_str());
            if chars_equal(&candidate, &name) {
                found = Some(i);
                break;
            }
            i = i + 1;
        }
        let ghost was_mutable: bool = false;
        match found {
            Some(f) => {
                proof {
                    was_mutable = before[f as int].mutable;
                    assert(exists|j: int| 0 <= j < before.len() && (#[trigger] before[j]).name@ == symbol.name@);
                    let c = choose|j: int| 0 <= j < before.len() && (#[trigger] before[j]).name@ == symbol.name@;
                    assert(c == f as int);
                    lemma_count_update(before, f as int, symbol);
                }
                level.set(f, symbol);
                assert(level@ == level_insert(before, symbol));
            },
            None => {
                level.push(symbol);
                proof {
                    assert(level@.drop_last() =~= before);
                    assert(!exists|j: int| 0 <= j < before.len() && (#[trigger] before[j]).name@ == symbol.name@);
                    assert(level@ == level_insert(before, symbol));
                }
            },
        }
        let ghost after = level@;
        assert(after == level_insert(before, symbol));
        assert(distinct_names(after));
        self.scope_levels.push(level);
        assert(self.levels() =~= old_levels.drop_last().push(after));
        assert(old_levels.drop_last().push(after).drop_last() =~= old_levels.drop_last());
        assert(old_levels.last() == before);
        assert forall|k: int| 0 <= k < self.scope_levels@.len() implies distinct_names(
            #[trigger] self.scope_levels@[k]@,
        ) by {
            if k < self.scope_levels@.len() - 1 {
                assert(self.scope_levels@[k] == old(self).scope_levels@[k]);
            }
        }
        proof {
            law_declared_symbol_found(old_levels, symbol);
        }
    }

    /// In a well-formed scope no two symbols of a level share a name.
    pub proof fn lemma_levels_distinct(&self)
        requires
            self.wf(),
        ensures
            forall|k: int| 0 <= k < self.levels().len() ==> distinct_names(#[trigger] self.levels()[k]),
    {
        assert forall|k: int| 0 <= k < self.levels().len() implies distinct_names(#[trigger] self.levels()[k]) by {
            assert(self.levels()[k] == self.scope_levels@[k]@);
        }
    }

    /// Opens a new, empty innermost level.
    pub fn add_level(&mut self)
        requires
            old(self).wf(),
        ensures
            final(self).wf(),
            final(self).levels() == old(self).levels().push(Seq::<BarracudaSymbol>::empty()),
            final(self).mutable_size() == old(self).mutable_size(),
            final(self).mutable_max_size() == old(self).mutable_max_size(),
            final(self).total_mutable() == old(self).total_mutable(),
    {
        self.scope_levels.push(Vec::new());
        assert(self.levels() =~= old(self).levels().push(Seq::<BarracudaSymbol>::empty()));
        assert(self.levels().drop_last() =~= old(self).levels());
        assert(count_mutable(Seq::<BarracudaSymbol>::empty()) == 0);
        assert forall|k: int| 0 <= k < self.scope_levels@.len() implies distinct_names(
            #[trigger] self.scope_levels@[k]@,
        ) by {
            if k < self.scope_levels@.len() - 1 {
                assert(self.scope_levels@[k] == old(self).scope_levels@[k]);
            }
        }
    }

    /// Closes the innermost level: its symbols leave scope and its mutable
    /// symbols no longer count towards the live size.
    pub fn remove_level(&mut self)
        requires
            old(self).wf(),
            old(self).levels().len() > 0,
        ensures
            final(self).wf(),
            final(self).levels() == old(self).levels().drop_last(),
            final(self).mutable_size() == old(self).mutable_size() - count_mutable(old(self).levels().last()),
            final(self).mutable_max_size() == old(self).mutable_max_size(),
            final(self).total_mutable() == old(self).total_mutable(),
    {
        let ghost old_levels = self.levels();
        let last = self.scope_levels.len() - 1;
        let level = &self.scope_levels[last];
        let mut count: usize = 0;
        let mut i: usize = 0;
        assert(old_levels.last() == level@);
        while i < level.len()
            invariant
                i <= level@.len(),
                count == count_mutable(level@.take(i as int)),
                count_mutable(level@) <= sum_mutable(old_levels),
                sum_mutable(old_levels) <= usize::MAX,
                level@ == old_levels.last(),
                old_levels.len() > 0,
            decreases level@.len() - i,
        {
            assert(level@.take(i + 1).drop_last() =~= level@.take(i as int));
            proof {
                lemma_count_prefix(level@, i + 1);
            }
            if level[i].mutable {
                count = count + 1;
            }
            i = i + 1;
        }
        assert(level@.take(i as int) =~= level@);
        self.scope_mutable_size = self.scope_mutable_size - count;
        self.scope_levels.pop();
        assert(self.levels() =~= old_levels.drop_last());
    }
}

/// The mutable count of a prefix is at most that of the whole level.
proof fn lemma_count_prefix(level: Seq<BarracudaSymbol>, n: int)
    requires
        0 <= n <= level.len(),
    ensures
        count_mutable(level.take(n)) <= count_mutable(level),
    decreases level.len() - n,
{
    if n < level.len() {
        lemma_count_prefix(level, n + 1);
        assert(level.take(n + 1).drop_last() =~= level.take(n));
    } else {
        assert(level.take(n) =~= level);
    }
}

/// The innermost level that declares a name decides what it denotes; a name
/// it does not declare denotes what it denoted without that level.
pub proof fn law_innermost_level_shadows(levels: Seq<Seq<BarracudaSymbol>>, level: Seq<BarracudaSymbol>, name: Seq<char>)
    ensures
        level_find(level, name) is Some ==> levels_find(levels.push(level), name) == level_find(level, name),
        level_find(level, name) is None ==> levels_find(levels.push(level), name) == levels_find(levels, name),
{
    assert(levels.push(level).drop_last() =~= levels);
}

/// Adding a level and removing it again leaves every name denoting what it did before.
pub proof fn law_level_round_trip(levels: Seq<Seq<BarracudaSymbol>>, level: Seq<BarracudaSymbol>, name: Seq<char>)
    ensures
        levels_find(levels.push(level).drop_last(), name) == levels_find(levels, name),
{
    assert(levels.push(level).drop_last() =~= levels);
}

/// A symbol just declared is what its name denotes.
pub proof fn law_declared_symbol_found(levels: Seq<Seq<BarracudaSymbol>>, symbol: BarracudaSymbol)
    requires
        levels.len() > 0,
        distinct_names(levels.last()),
    ensures
        levels_find(levels.drop_last().push(level_insert(levels.last(), symbol)), symbol.name@) == Some(symbol),
{
    let level = levels.last();
    let inserted = level_insert(level, symbol);
    assert(levels.drop_last().push(inserted).drop_last() =~= levels.drop_last());
    lemma_level_find_inserted(level, symbol);
}

/// Finding the name of a symbol just inserted into a level gives that symbol.
proof fn lemma_level_find_inserted(level: Seq<BarracudaSymbol>, symbol: BarracudaSymbol)
    requires
        distinct_names(level),
    ensures
        level_find(level_insert(level, symbol), symbol.name@) == Some(symbol),
{
    if exists|i: int| 0 <= i < level.len() && (#[trigger] level[i]).name@ == symbol.name@ {
        let i = choose|i: int| 0 <= i < level.len() && (#[trigger] level[i]).name@ == symbol.name@;
        lemma_level_find_unique(level.update(i, symbol), i);
    } else {
        assert(level.push(symbol).last() == symbol);
    }
}

/// In a level where only index `i` has a given name, finding it gives that element.
proof fn lemma_level_find_unique(level: Seq<BarracudaSymbol>, i: int)
    requires
        0 <= i < level.len(),
        forall|j: int| 0 <= j < level.len() && j != i ==> (#[trigger] level[j]).name@ != level[i].name@,
    ensures
        level_find(level, level[i].name@) == Some(level[i]),
    decreases level.len(),
{
    if i != level.len() - 1 {
        let shorter = level.drop_last();
        assert(shorter[i] == level[i]);
        assert forall|j: int| 0 <= j < shorter.len() && j != i implies (#[trigger] shorter[j]).name@ != shorter[i].name@ by {
            assert(shorter[j] == level[j]);
        }
        lemma_level_find_unique(shorter, i);
    }
}

} // verus!
