//! The environment variables a program may declare with `extern`.
use vstd::prelude::*;
use crate::ast::datatype::PrimitiveDataType;
use crate::ast::qualifiers::Qualifier;

verus! {

/// What is known of one environment variable: its address in the host
/// environment, its type, its qualifier and its pointer levels (a run of `*`).
pub type EnvironmentVariableData = (usize, PrimitiveDataType, Qualifier, String);

/// One identifier with its environment variable data.
pub type EnvironmentEntry = (String, EnvironmentVariableData);

/// The data of an entry, with its text as characters.
pub open spec fn entry_data(e: EnvironmentEntry) -> (usize, PrimitiveDataType, Qualifier, Seq<char>) {
    (e.1.0, e.1.1, e.1.2, e.1.3@)
}

/// No identifier occurs twice among the entries.
pub open spec fn distinct_keys(entries: Seq<EnvironmentEntry>) -> bool {
    forall|i: int, j: int| 0 <= i < j < entries.len() ==> entries[i].0@ != entries[j].0@
}

/// The map from identifiers to data that a list of distinct entries describes.
pub open spec fn entries_map(entries: Seq<EnvironmentEntry>) -> Map<Seq<char>, (usize, PrimitiveDataType, Qualifier, Seq<char>)> {
    Map::new(
        |k: Seq<char>| exists|i: int| 0 <= i < entries.len() && entries[i].0@ == k,
        |k: Seq<char>| entry_data(entries[choose|i: int| 0 <= i < entries.len() && entries[i].0@ == k]),
    )
}

/// EnvironmentSymbolContext maps identifiers to the environment variables the
/// host provides.
#[derive(Debug)]
pub struct EnvironmentSymbolContext {
    environment_variable_addresses: Vec<EnvironmentEntry>,
}

/// A copy of an entry: the same identifier and data.
fn copy_entry(e: &EnvironmentEntry) -> (r: EnvironmentEntry)
    ensures
        r.0@ == e.0@,
        entry_data(r) == entry_data(*e),
{
    (e.0.clone(), (e.1.0, e.1.1, e.1.2, e.1.3.clone()))
}

impl EnvironmentSymbolContext {
    /// The environment variables, by identifier.
    pub closed spec fn view(&self) -> Map<Seq<char>, (usize, PrimitiveDataType, Qualifier, Seq<char>)> {
        entries_map(self.environment_variable_addresses@)
    }

    /// The context holds each identifier once.
    pub closed spec fn wf(&self) -> bool {
        distinct_keys(self.environment_variable_addresses@)
    }

    /// An empty context.
    pub fn new() -> (r: Self)
        ensures
            r.wf(),
            r.view() == Map::<Seq<char>, (usize, PrimitiveDataType, Qualifier, Seq<char>)>::empty(),
    {
        let r = EnvironmentSymbolContext { environment_variable_addresses: Vec::new() };
        assert(r.view() =~= Map::<Seq<char>, (usize, PrimitiveDataType, Qualifier, Seq<char>)>::empty());
        r
    }

    /// Position of an identifier among the entries.
    fn position(&self, identifier: &String) -> (r: Option<usize>)
        requires
            self.wf(),
        ensures
            r matches Some(i) ==> i < self.environment_variable_addresses@.len()
                && self.environment_variable_addresses@[i as int].0@ == identifier@,
            r is None ==> forall|i: int|
                0 <= i < self.environment_variable_addresses@.len() ==> self.environment_variable_addresses@[i].0@
                    != identifier@,
    {
        let mut i: usize = 0;
        while i < self.environment_variable_addresses.len()
            invariant
                i <= self.environment_variable_addresses@.len(),
                forall|j: int| 0 <= j < i ==> self.environment_variable_addresses@[j].0@ != identifier@,
            decreases self.environment_variable_addresses@.len() - i,
        {
            if self.environment_variable_addresses[i].0 == *identifier {
                return Some(i);
            }
            i = i + 1;
        }
        None
    }

    /// Defines an environment variable, replacing an earlier definition of the
    /// same identifier. Returns whether the identifier was already defined.
    pub fn add_symbol(
        &mut self,
        identifier: String,
        address: usize,
        datatype: PrimitiveDataType,
        qualifier: Qualifier,
        ptr_levels: String,
    ) -> (r: bool)
        requires
            old(self).wf(),
        ensures
            final(self).wf(),
            r == old(self).view().contains_key(identifier@),
            final(self).view() == old(self).view().insert(identifier@, (address, datatype, qualifier, ptr_levels@)),
    {
        let ghost key = identifier@;
        let ghost value = (address, datatype, qualifier, ptr_levels@);
        let ghost old_entries = self.environment_variable_addresses@;
        match self.position(&identifier) {
            Some(i) => {
                self.environment_variable_addresses.set(i, (identifier, (address, datatype, qualifier, ptr_levels)));
                proof {
                    let entries = self.environment_variable_addresses@;
                    assert(entries_map(entries) =~= entries_map(old_entries).insert(key, value)) by {
                        assert forall|k: Seq<char>| #[trigger] entries_map(entries).contains_key(k)
                            == entries_map(old_entries).insert(key, value).contains_key(k) by {
                            if entries_map(old_entries).contains_key(k) {
                                let j = choose|j: int| 0 <= j < old_entries.len() && old_entries[j].0@ == k;
                                if j != i {
                                    assert(entries[j] == old_entries[j]);
                                }
                            }
                            if entries_map(entries).contains_key(k) && k != key {
                                let j = choose|j: int| 0 <= j < entries.len() && entries[j].0@ == k;
                                assert(entries[j] == old_entries[j]);
                            }
                        }
                        assert forall|k: Seq<char>| #[trigger] entries_map(entries).contains_key(k) implies entries_map(
                            entries,
                        )[k] == entries_map(old_entries).insert(key, value)[k] by {
                            let j = choose|j: int| 0 <= j < entries.len() && entries[j].0@ == k;
                            if k == key {
                                assert(j == i);
                            } else {
                                let j2 = choose|j2: int| 0 <= j2 < old_entries.len() && old_entries[j2].0@ == k;
                                assert(entries[j2] == old_entries[j2]);
                                assert(j2 == j);
                            }
                        }
                    }
                    assert(entries[i as int].0@ == key);
                }
                true
            },
            None => {
                self.environment_variable_addresses.push((identifier, (address, datatype, qualifier, ptr_levels)));
                proof {
                    let entries = self.environment_variable_addresses@;
                    let n = old_entries.len() as int;
                    assert(entries_map(entries) =~= entries_map(old_entries).insert(key, value)) by {
                        assert forall|k: Seq<char>| #[trigger] entries_map(entries).contains_key(k)
                            == entries_map(old_entries).insert(key, value).contains_key(k) by {
                            if entries_map(old_entries).contains_key(k) {
                                let j = choose|j: int| 0 <= j < old_entries.len() && old_entries[j].0@ == k;
                                assert(entries[j] == old_entries[j]);
                            }
                            if k == key {
                                assert(entries[n].0@ == key);
                            }
                            if entries_map(entries).contains_key(k) && k != key {
                                let j = choose|j: int| 0 <= j < entries.len() && entries[j].0@ == k;
                                assert(j < n);
                                assert(entries[j] == old_entries[j]);
                            }
                        }
                        assert forall|k: Seq<char>| #[trigger] entries_map(entries).contains_key(k) implies entries_map(
                            entries,
                        )[k] == entries_map(old_entries).insert(key, value)[k] by {
                            let j = choose|j: int| 0 <= j < entries.len() && entries[j].0@ == k;
                            if k == key {
                                assert(j == n);
                            } else {
                                let j2 = choose|j2: int| 0 <= j2 < old_entries.len() && old_entries[j2].0@ == k;
                                assert(entries[j2] == old_entries[j2]);
                                assert(j2 == j);
                            }
                        }
                    }
                    assert(!entries_map(old_entries).contains_key(key));
                }
                false
            },
        }
    }

    /// The environment variables as a list of identifiers with their data;
    /// each identifier occurs once.
    pub fn into(self) -> (r: Vec<EnvironmentEntry>)
        requires
            self.wf(),
        ensures
            distinct_keys(r@),
            entries_map(r@) == self.view(),
    {
        self.environment_variable_addresses
    }

    /// A copy of the environment variables as a list of identifiers with
    /// their data; each identifier occurs once.
    pub fn copy_addresses(&self) -> (r: Vec<EnvironmentEntry>)
        requires
            self.wf(),
        ensures
            distinct_keys(r@),
            entries_map(r@) == self.view(),
    {
        let entries = &self.environment_variable_addresses;
        let mut out: Vec<EnvironmentEntry> = Vec::new();
        let mut i: usize = 0;
        while i < entries.len()
            invariant
                i <= entries@.len(),
                out@.len() == i,
                distinct_keys(entries@),
                forall|j: int| 0 <= j < i ==> (#[trigger] out@[j]).0@ == entries@[j].0@ && entry_data(out@[j])
                    == entry_data(entries@[j]),
            decreases entries@.len() - i,
        {
            out.push(copy_entry(&entries[i]));
            i = i + 1;
        }
        assert(entries_map(out@) =~= entries_map(entries@)) by {
            assert forall|k: Seq<char>| #[trigger] entries_map(out@).contains_key(k) == entries_map(entries@).contains_key(k) by {
                if entries_map(out@).contains_key(k) {
                    let j = choose|j: int| 0 <= j < out@.len() && out@[j].0@ == k;
                    assert(entries@[j].0@ == k);
                }
                if entries_map(entries@).contains_key(k) {
                    let j = choose|j: int| 0 <= j < entries@.len() && entries@[j].0@ == k;
                    assert(out@[j].0@ == k);
                }
            }
            assert forall|k: Seq<char>| #[trigger] entries_map(out@).contains_key(k) implies entries_map(out@)[k]
                == entries_map(entries@)[k] by {
                let j = choose|j: int| 0 <= j < out@.len() && out@[j].0@ == k;
                let j2 = choose|j2: int| 0 <= j2 < entries@.len() && entries@[j2].0@ == k;
                assert(out@[j2].0@ == k);
                if j != j2 {
                    if j < j2 {
                        assert(entries@[j].0@ != entries@[j2].0@);
                    } else {
                        assert(entries@[j2].0@ != entries@[j].0@);
                    }
                }
            }
        }
        out
    }
}

} // verus!
