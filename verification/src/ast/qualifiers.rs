//! Type qualifiers: whether a value is constant or mutable.
use vstd::prelude::*;
use crate::text::{str_chars, str_to_lowercase, trim_chars, trimmed, lowercase, chars_to_string, ascii_lower, all_ascii};
use crate::ast::datatype::is_name;

verus! {

/// Whether a value may change.
#[derive(Debug, Clone, Copy, PartialEq, Eq, Structural)]
pub enum Qualifier {
    CONSTANT,
    MUTABLE,
}

/// The qualifier a text denotes: after lowercasing and trimming, `"mut"`
/// gives `MUTABLE`; anything else, `"const"` included, gives `CONSTANT`.
pub open spec fn spec_qualifier_named(qualifier: Seq<char>) -> Qualifier {
    if trimmed(lowercase(qualifier)) == seq!['m', 'u', 't'] {
        Qualifier::MUTABLE
    } else {
        Qualifier::CONSTANT
    }
}

/// The qualifier an ASCII text denotes: as `spec_qualifier_named`, with
/// the lowercasing done letter by letter.
pub open spec fn spec_qualifier_named_ascii(qualifier: Seq<char>) -> Qualifier {
    if trimmed(qualifier.map_values(|c: char| ascii_lower(c))) == seq!['m', 'u', 't'] {
        Qualifier::MUTABLE
    } else {
        Qualifier::CONSTANT
    }
}

/// The text of a qualifier.
pub open spec fn spec_qualifier_text(q: Qualifier) -> Seq<char> {
    match q {
        Qualifier::CONSTANT => seq!['c', 'o', 'n', 's', 't'],
        Qualifier::MUTABLE => seq!['m', 'u', 't'],
    }
}

impl Qualifier {
    /// Parses a qualifier; unknown text counts as constant.
    pub fn from_str(qualifier: String) -> (r: Qualifier)
        ensures
            r == spec_qualifier_named(qualifier@),
            all_ascii(qualifier@) ==> r == spec_qualifier_named_ascii(qualifier@),
    {
        let lower = str_to_lowercase(qualifier.as_str());
        let chars = str_chars(lower.as_str());
        let name = trim_chars(&chars);
        if is_name(&name, &['c', 'o', 'n', 's', 't']) {
            Qualifier::CONSTANT
        } else if is_name(&name, &['m', 'u', 't']) {
            Qualifier::MUTABLE
        } else {
            Qualifier::CONSTANT
        }
    }

    /// The text of the qualifier: `"const"` or `"mut"`.
    pub fn to_str(&self) -> (r: String)
        ensures
            r@ == spec_qualifier_text(*self),
    {
        let chars = match self {
            Qualifier::CONSTANT => vec!['c', 'o', 'n', 's', 't'],
            Qualifier::MUTABLE => vec!['m', 'u', 't'],
        };
        chars_to_string(&chars)
    }
}

/// Writing a qualifier as text and reading it back gives the same
/// qualifier: the text is ASCII, and read as ASCII text it denotes `q`.
pub proof fn law_qualifier_text_roundtrip(q: Qualifier)
    ensures
        all_ascii(spec_qualifier_text(q)),
        spec_qualifier_named_ascii(spec_qualifier_text(q)) == q,
{
    let t = spec_qualifier_text(q);
    let lower = t.map_values(|c: char| ascii_lower(c));
    assert(lower =~= t);
    crate::text::lemma_leading_white_space(t);
    crate::text::lemma_trailing_white_space(t);
    assert(trimmed(t) =~= t);
}

} // verus!
