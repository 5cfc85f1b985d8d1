//! Data types of the Barracuda language.
use vstd::prelude::*;
use vstd::std_specs::cmp::PartialEqSpecImpl;
use crate::text::{str_chars, str_to_lowercase, trim_chars, trimmed, lowercase, chars_equal, all_ascii, ascii_lowercase};

verus! {

/// Primitive data types supported by the AST model.
#[derive(Debug, Clone, Copy, PartialEq, Eq, Structural)]
pub enum PrimitiveDataType {
    F128,
    F64,
    F32,
    F16,
    F8,
    I128,
    I64,
    I32,
    I16,
    I8,
    Bool,
    String,
}

/// The primitive type an exact (lowercase, trimmed) name denotes.
pub open spec fn primitive_named(name: Seq<char>) -> Option<PrimitiveDataType> {
    if name == seq!['f', '1', '2', '8'] {
        Some(PrimitiveDataType::F128)
    } else if name == seq!['f', '6', '4'] {
        Some(PrimitiveDataType::F64)
    } else if name == seq!['f', '3', '2'] {
        Some(PrimitiveDataType::F32)
    } else if name == seq!['f', '1', '6'] {
        Some(PrimitiveDataType::F16)
    } else if name == seq!['f', '8'] {
        Some(PrimitiveDataType::F8)
    } else if name == seq!['i', '1', '2', '8'] {
        Some(PrimitiveDataType::I128)
    } else if name == seq!['i', '6', '4'] {
        Some(PrimitiveDataType::I64)
    } else if name == seq!['i', '3', '2'] {
        Some(PrimitiveDataType::I32)
    } else if name == seq!['i', '1', '6'] {
        Some(PrimitiveDataType::I16)
    } else if name == seq!['i', '8'] {
        Some(PrimitiveDataType::I8)
    } else if name == seq!['b', 'o', 'o', 'l'] {
        Some(PrimitiveDataType::Bool)
    } else if name == seq!['s', 't', 'r', 'i', 'n', 'g'] {
        Some(PrimitiveDataType::String)
    } else {
        None
    }
}

/// The primitive type a type name denotes: the name is lowercased and
/// trimmed, then matched exactly.
pub open spec fn spec_parse_primitive(datatype: Seq<char>) -> Option<PrimitiveDataType> {
    primitive_named(trimmed(lowercase(datatype)))
}

/// Whether `v` holds exactly the characters of `lit`.
pub fn is_name(v: &Vec<char>, lit: &[char]) -> (r: bool)
    ensures
        r == (v@ == lit@),
{
    if v.len() != lit.len() {
        return false;
    }
    let mut i: usize = 0;
    while i < v.len()
        invariant
            v@.len() == lit@.len(),
            i <= v@.len(),
            forall|j: int| 0 <= j < i ==> v@[j] == lit@[j],
        decreases v@.len() - i,
    {
        if v[i] != lit[i] {
            return false;
        }
        i = i + 1;
    }
    assert(v@ =~= lit@);
    true
}

impl PrimitiveDataType {
    /// Converts a textual type name (any case, surrounding white space
    /// ignored) into a primitive data type.
    pub fn parse(datatype: String) -> (r: Option<PrimitiveDataType>)
        ensures
            r == spec_parse_primitive(datatype@),
            all_ascii(datatype@) ==> r == primitive_named(trimmed(ascii_lowercase(datatype@))),
    {
        let lower = str_to_lowercase(datatype.as_str());
        let chars = str_chars(lower.as_str());
        let name = trim_chars(&chars);
        if is_name(&name, &['f', '1', '2', '8']) {
            Some(Self::F128)
        } else if is_name(&name, &['f', '6', '4']) {
            Some(Self::F64)
        } else if is_name(&name, &['f', '3', '2']) {
            Some(Self::F32)
        } else if is_name(&name, &['f', '1', '6']) {
            Some(Self::F16)
        } else if is_name(&name, &['f', '8']) {
            Some(Self::F8)
        } else if is_name(&name, &['i', '1', '2', '8']) {
            Some(Self::I128)
        } else if is_name(&name, &['i', '6', '4']) {
            Some(Self::I64)
        } else if is_name(&name, &['i', '3', '2']) {
            Some(Self::I32)
        } else if is_name(&name, &['i', '1', '6']) {
            Some(Self::I16)
        } else if is_name(&name, &['i', '8']) {
            Some(Self::I8)
        } else if is_name(&name, &['b', 'o', 'o', 'l']) {
            Some(Self::Bool)
        } else if is_name(&name, &['s', 't', 'r', 'i', 'n', 'g']) {
            Some(Self::String)
        } else {
            None
        }
    }
}

/// A data type of the language.
#[derive(Debug)]
pub enum DataType {
    /// A variable of the host environment holding a primitive.
    ENVIRONMENTVARIABLE(PrimitiveDataType),
    /// A pointer to a value of the inner type.
    POINTER(Box<DataType>),
    /// An array of a given length of the inner type.
    ARRAY(Box<DataType>, usize),
    /// A primitive value.
    PRIMITIVE(PrimitiveDataType),
    /// No type.
    NONE,
}

/// Whether two data types are equal as the type checker compares them: every
/// primitive and environment variable matches every other (all are numbers on
/// the VM), pointers and arrays compare their inner types (and lengths).
pub open spec fn spec_type_eq(a: DataType, b: DataType) -> bool
    decreases a,
{
    match (a, b) {
        (DataType::PRIMITIVE(_), DataType::PRIMITIVE(_)) => true,
        (DataType::ENVIRONMENTVARIABLE(_), DataType::PRIMITIVE(_)) => true,
        (DataType::PRIMITIVE(_), DataType::ENVIRONMENTVARIABLE(_)) => true,
        (DataType::ENVIRONMENTVARIABLE(_), DataType::ENVIRONMENTVARIABLE(_)) => true,
        (DataType::POINTER(x), DataType::POINTER(y)) => spec_type_eq(*x, *y),
        (DataType::ARRAY(x, n), DataType::ARRAY(y, m)) => spec_type_eq(*x, *y) && n == m,
        (DataType::NONE, DataType::NONE) => true,
        _ => false,
    }
}

/// The number of primitive cells an array type holds in total (1 for a
/// non-array type).
pub open spec fn spec_array_length(datatype: DataType) -> nat
    decreases datatype,
{
    match datatype {
        DataType::ARRAY(inner, size) => (size as nat) * spec_array_length(*inner),
        _ => 1,
    }
}

/// Every partial product of the array length fits in a `usize`.
pub open spec fn array_length_fits(datatype: DataType) -> bool
    decreases datatype,
{
    match datatype {
        DataType::ARRAY(inner, size) => array_length_fits(*inner) && size * spec_array_length(*inner) <= usize::MAX,
        _ => true,
    }
}

/// The type a name denotes for `DataType::from_str`, when it denotes one.
pub open spec fn spec_datatype_named(datatype: Seq<char>) -> Option<DataType> {
    if datatype == seq!['n', 'o', 'n', 'e'] {
        Some(DataType::NONE)
    } else {
        match spec_parse_primitive(datatype) {
            Some(p) => Some(DataType::PRIMITIVE(p)),
            None => None,
        }
    }
}

impl DataType {
    /// An identical copy of the data type.
    pub fn duplicate(&self) -> (r: Self)
        ensures
            r == *self,
        decreases self,
    {
        match self {
            DataType::ENVIRONMENTVARIABLE(p) => DataType::ENVIRONMENTVARIABLE(*p),
            DataType::POINTER(inner) => DataType::POINTER(Box::new((**inner).duplicate())),
            DataType::ARRAY(inner, size) => DataType::ARRAY(Box::new((**inner).duplicate()), *size),
            DataType::PRIMITIVE(p) => DataType::PRIMITIVE(*p),
            DataType::NONE => DataType::NONE,
        }
    }

    /// Compares two data types as the type checker does (see `spec_type_eq`).
    pub fn equals(&self, other: &Self) -> (r: bool)
        ensures
            r == spec_type_eq(*self, *other),
        decreases self,
    {
        match (self, other) {
            (DataType::PRIMITIVE(_), DataType::PRIMITIVE(_)) => true,
            (DataType::ENVIRONMENTVARIABLE(_), DataType::PRIMITIVE(_)) => true,
            (DataType::PRIMITIVE(_), DataType::ENVIRONMENTVARIABLE(_)) => true,
            (DataType::ENVIRONMENTVARIABLE(_), DataType::ENVIRONMENTVARIABLE(_)) => true,
            (DataType::POINTER(x), DataType::POINTER(y)) => (**x).equals(&**y),
            (DataType::ARRAY(x, n), DataType::ARRAY(y, m)) => (**x).equals(&**y) && *n == *m,
            (DataType::NONE, DataType::NONE) => true,
            _ => false,
        }
    }

    /// Converts a type name into a data type: `"none"` gives `NONE`, a
    /// primitive name gives that primitive. Any other name is refused.
    pub fn from_str(datatype: String) -> (r: Self)
        requires
            spec_datatype_named(datatype@) is Some,
        ensures
            Some(r) == spec_datatype_named(datatype@),
    {
        let chars = str_chars(datatype.as_str());
        if is_name(&chars, &['n', 'o', 'n', 'e']) {
            return DataType::NONE;
        }
        match PrimitiveDataType::parse(datatype) {
            Some(p) => DataType::PRIMITIVE(p),
            None => DataType::NONE,
        }
    }

    /// Converts a type name into a data type when it names one (see `from_str`).
    pub fn try_from_str(datatype: String) -> (r: Option<Self>)
        ensures
            r == spec_datatype_named(datatype@),
    {
        let chars = str_chars(datatype.as_str());
        if is_name(&chars, &['n', 'o', 'n', 'e']) {
            return Some(DataType::from_str(datatype));
        }
        let probe = datatype.clone();
        match PrimitiveDataType::parse(probe) {
            Some(_) => Some(DataType::from_str(datatype)),
            None => None,
        }
    }

    /// The total number of primitive cells of an array type: the product of
    /// the lengths of its nested arrays. Non-array types count 1.
    pub fn get_array_length(datatype: &Self) -> (r: usize)
        requires
            array_length_fits(*datatype),
        ensures
            r == spec_array_length(*datatype),
        decreases datatype,
    {
        match datatype {
            DataType::ARRAY(inner, size) => {
                let inner_length = DataType::get_array_length(&**inner);
                *size * inner_length
            },
            _ => 1,
        }
    }
}

impl Clone for DataType {
    fn clone(&self) -> (r: Self)
        ensures
            r == *self,
    {
        self.duplicate()
    }
}

impl PartialEq for DataType {
    fn eq(&self, other: &Self) -> (r: bool) {
        self.equals(other)
    }
}

impl PartialEqSpecImpl for DataType {
    open spec fn obeys_eq_spec() -> bool {
        true
    }

    open spec fn eq_spec(&self, other: &DataType) -> bool {
        spec_type_eq(*self, *other)
    }
}


/// A data type as the VM tells types apart: every primitive and environment
/// variable becomes the one number type (all are numbers on the VM), while
/// pointers, arrays with their lengths, and the absence of a type stay.
pub open spec fn vm_shape(t: DataType) -> DataType
    decreases t,
{
    match t {
        DataType::ENVIRONMENTVARIABLE(_) => DataType::PRIMITIVE(PrimitiveDataType::F64),
        DataType::PRIMITIVE(_) => DataType::PRIMITIVE(PrimitiveDataType::F64),
        DataType::POINTER(x) => DataType::POINTER(Box::new(vm_shape(*x))),
        DataType::ARRAY(x, n) => DataType::ARRAY(Box::new(vm_shape(*x)), n),
        DataType::NONE => DataType::NONE,
    }
}

/// Two data types compare equal exactly when the VM cannot tell them apart:
/// any two numbers match, pointers match when what they point to matches,
/// and arrays match only when their element types match and their lengths
/// are the same.
pub proof fn law_type_equality_is_vm_shape_equality(a: DataType, b: DataType)
    ensures
        spec_type_eq(a, b) <==> vm_shape(a) == vm_shape(b),
    decreases a,
{
    match (a, b) {
        (DataType::POINTER(x), DataType::POINTER(y)) => {
            law_type_equality_is_vm_shape_equality(*x, *y);
        },
        (DataType::ARRAY(x, n), DataType::ARRAY(y, m)) => {
            law_type_equality_is_vm_shape_equality(*x, *y);
        },
        _ => {},
    }
}

/// Type equality is an equivalence, and arrays of different lengths are
/// never equal.
pub proof fn law_type_equality_is_an_equivalence(a: DataType, b: DataType, c: DataType, x: DataType, n: usize, m: usize)
    ensures
        spec_type_eq(a, a),
        spec_type_eq(a, b) ==> spec_type_eq(b, a),
        spec_type_eq(a, b) && spec_type_eq(b, c) ==> spec_type_eq(a, c),
        n != m ==> !spec_type_eq(DataType::ARRAY(Box::new(x), n), DataType::ARRAY(Box::new(x), m)),
{
    law_type_equality_is_vm_shape_equality(a, a);
    law_type_equality_is_vm_shape_equality(a, b);
    law_type_equality_is_vm_shape_equality(b, a);
    law_type_equality_is_vm_shape_equality(b, c);
    law_type_equality_is_vm_shape_equality(a, c);
    law_type_equality_is_vm_shape_equality(DataType::ARRAY(Box::new(x), n), DataType::ARRAY(Box::new(x), m));
}

} // verus!
