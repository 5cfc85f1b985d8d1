//! Symbols as the bytecode generator sees them.
use vstd::prelude::*;
use crate::text::{str_chars, str_to_lowercase, trim_chars, trimmed, lowercase, all_ascii, ascii_lowercase};
use crate::ast::datatype::is_name;

verus! {

broadcast use vstd::std_specs::vec::group_vec_axioms;

/// The type of a symbol known to the bytecode generator.
#[allow(non_camel_case_types)]
#[derive(Debug)]
pub enum SymbolType {
    F64,
    F32,
    U64,
    U32,
    U16,
    U8,
    S64,
    S32,
    S16,
    S8,
    /// Another name for a type.
    Alias(String),
    /// A function: its label, parameter types and return type.
    Function { func_label: u64, func_params: Vec<SymbolType>, func_return: Box<SymbolType> },
    Void,
}

/// The symbol type an exact (lowercase, trimmed) type name denotes; `bool`
/// is stored as `U8`.
pub open spec fn symbol_type_named(name: Seq<char>) -> Option<SymbolType> {
    if name == seq!['f', '6', '4'] {
        Some(SymbolType::F64)
    } else if name == seq!['f', '3', '2'] {
        Some(SymbolType::F32)
    } else if name == seq!['u', '6', '4'] {
        Some(SymbolType::U64)
    } else if name == seq!['u', '3', '2'] {
        Some(SymbolType::U32)
    } else if name == seq!['u', '1', '6'] {
        Some(SymbolType::U16)
    } else if name == seq!['u', '8'] {
        Some(SymbolType::U8)
    } else if name == seq!['s', '6', '4'] {
        Some(SymbolType::S64)
    } else if name == seq!['s', '3', '2'] {
        Some(SymbolType::S32)
    } else if name == seq!['s', '1', '6'] {
        Some(SymbolType::S16)
    } else if name == seq!['s', '8'] {
        Some(SymbolType::S8)
    } else if name == seq!['b', 'o', 'o', 'l'] {
        Some(SymbolType::U8)
    } else {
        None
    }
}

/// The symbol type a type name denotes in any case, surrounding white space ignored.
pub open spec fn spec_symbol_type_from(datatype: Seq<char>) -> Option<SymbolType> {
    symbol_type_named(trimmed(lowercase(datatype)))
}

impl SymbolType {
    /// Whether two symbol types carry the same data.
    pub open spec fn same(self, other: SymbolType) -> bool
        decreases self,
    {
        match self {
            SymbolType::Alias(a) => other matches SymbolType::Alias(b) && a@ == b@,
            SymbolType::Function { func_label, func_params, func_return } => match other {
                SymbolType::Function { func_label: l, func_params: p, func_return: r } => {
                    &&& func_label == l
                    &&& func_params.len() == p.len()
                    &&& forall|i: int| 0 <= i < func_params.len() ==> (#[trigger] func_params@[i]).same(p@[i])
                    &&& (*func_return).same(*r)
                },
                _ => false,
            },
            _ => self == other,
        }
    }

    /// Converts a type name, in any case and with surrounding white space,
    /// into a symbol type. Unknown names are refused.
    pub fn from(datatype: String) -> (r: SymbolType)
        requires
            spec_symbol_type_from(datatype@) is Some,
        ensures
            Some(r) == spec_symbol_type_from(datatype@),
            all_ascii(datatype@) ==> Some(r) == symbol_type_named(trimmed(ascii_lowercase(datatype@))),
    {
        match Self::try_from_name(datatype) {
            Some(t) => t,
            None => SymbolType::Void,
        }
    }

    /// Converts a type name into a symbol type when it names one (see `from`).
    pub fn try_from_name(datatype: String) -> (r: Option<SymbolType>)
        ensures
            r == spec_symbol_type_from(datatype@),
            all_ascii(datatype@) ==> r == symbol_type_named(trimmed(ascii_lowercase(datatype@))),
    {
        let lower = str_to_lowercase(datatype.as_str());
        let chars = str_chars(lower.as_str());
        let name = trim_chars(&chars);
        if is_name(&name, &['f', '6', '4']) {
            Some(SymbolType::F64)
        } else if is_name(&name, &['f', '3', '2']) {
            Some(SymbolType::F32)
        } else if is_name(&name, &['u', '6', '4']) {
            Some(SymbolType::U64)
        } else if is_name(&name, &['u', '3', '2']) {
            Some(SymbolType::U32)
        } else if is_name(&name, &['u', '1', '6']) {
            Some(SymbolType::U16)
        } else if is_name(&name, &['u', '8']) {
            Some(SymbolType::U8)
        } else if is_name(&name, &['s', '6', '4']) {
            Some(SymbolType::S64)
        } else if is_name(&name, &['s', '3', '2']) {
            Some(SymbolType::S32)
        } else if is_name(&name, &['s', '1', '6']) {
            Some(SymbolType::S16)
        } else if is_name(&name, &['s', '8']) {
            Some(SymbolType::S8)
        } else if is_name(&name, &['b', 'o', 'o', 'l']) {
            Some(SymbolType::U8)
        } else {
            None
        }
    }

    /// A copy carrying the same data.
    pub fn duplicate(&self) -> (r: Self)
        ensures
            r.same(*self),
        decreases self,
    {
        match self {
            SymbolType::F64 => SymbolType::F64,
            SymbolType::F32 => SymbolType::F32,
            SymbolType::U64 => SymbolType::U64,
            SymbolType::U32 => SymbolType::U32,
            SymbolType::U16 => SymbolType::U16,
            SymbolType::U8 => SymbolType::U8,
            SymbolType::S64 => SymbolType::S64,
            SymbolType::S32 => SymbolType::S32,
            SymbolType::S16 => SymbolType::S16,
            SymbolType::S8 => SymbolType::S8,
            SymbolType::Alias(name) => SymbolType::Alias(name.clone()),
            SymbolType::Function { func_label, func_params, func_return } => {
                let mut params: Vec<SymbolType> = Vec::new();
                let n = func_params.len();
                let mut i: usize = 0;
                while i < n
                    invariant
                        n == func_params@.len(),
                        *self is Function,
                        self->func_params == *func_params,
                        i <= n,
                        params@.len() == i,
                        forall|j: int| 0 <= j < i ==> (#[trigger] params@[j]).same(func_params@[j]),
                    decreases n - i,
                {
                    proof {
                        assert(decreases_to!(*self => self->func_params));
                        assert(decreases_to!(*func_params => func_params@));
                        assert(decreases_to!(func_params@ => func_params@[i as int]));
                    }
                    let p = func_params[i].duplicate();
                    params.push(p);
                    i = i + 1;
                }
                let ret = (**func_return).duplicate();
                SymbolType::Function { func_label: *func_label, func_params: params, func_return: Box::new(ret) }
            },
            SymbolType::Void => SymbolType::Void,
        }
    }
}

impl Clone for SymbolType {
    fn clone(&self) -> (r: Self)
        ensures
            r.same(*self),
    {
        self.duplicate()
    }
}

/// The data the bytecode generator binds to an identifier.
#[derive(Debug)]
pub struct BarracudaSymbol {
    /// The identifier.
    pub name: String,
    /// Its type.
    pub symbol_type: SymbolType,
    /// Whether it can be assigned to.
    pub mutable: bool,
    /// Its unique id among the mutable symbols.
    pub scope_id: usize,
}

impl BarracudaSymbol {
    /// Whether two symbols carry the same data.
    pub open spec fn same(self, other: BarracudaSymbol) -> bool {
        &&& self.name@ == other.name@
        &&& self.symbol_type.same(other.symbol_type)
        &&& self.mutable == other.mutable
        &&& self.scope_id == other.scope_id
    }

    /// A copy carrying the same data.
    pub fn duplicate(&self) -> (r: Self)
        ensures
            r.same(*self),
    {
        BarracudaSymbol {
            name: self.name.clone(),
            symbol_type: self.symbol_type.duplicate(),
            mutable: self.mutable,
            scope_id: self.scope_id,
        }
    }
}

impl Clone for BarracudaSymbol {
    fn clone(&self) -> (r: Self)
        ensures
            r.same(*self),
    {
        self.duplicate()
    }
}

} // verus!
