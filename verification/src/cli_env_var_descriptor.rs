//! Environment variables described on the command line, with the syntax
//! `identifier(*...)?(:address)?(:datatype)?(=value)?`.
use vstd::prelude::*;
use crate::text::{str_chars, chars_between, chars_to_string};

verus! {

/// Why a command-line environment variable description was refused.
#[derive(Debug, Clone, Copy, PartialEq, Eq, Structural)]
pub enum EnvVarError {
    /// The text does not have the form of a description.
    Form,
}

/// An environment variable described on the command line. The value is
/// kept as the text of the number; the datatype is empty when none is given.
/// The run of `*` after the identifier gives both the qualifier and the
/// pointer levels.
#[derive(Debug)]
pub struct CLIEnvVarDescriptor {
    pub identifier: String,
    pub given_address: Option<usize>,
    pub given_value: Option<String>,
    pub datatype: String,
    pub qualifier: String,
    pub ptr_levels: String,
}

/// The classes of characters that the parts of a description are made of.
#[derive(Debug, Clone, Copy, PartialEq, Eq, Structural)]
pub enum CharClass {
    /// Letters, digits and `_`, as after the first letter of a name.
    NameChar,
    /// The character `*`.
    Star,
    /// The digits `0` to `9`.
    Digit,
}

/// An ASCII letter.
pub open spec fn is_ascii_letter(c: char) -> bool {
    (65 <= (c as u32) <= 90) || (97 <= (c as u32) <= 122)
}

/// An ASCII digit.
pub open spec fn is_ascii_digit(c: char) -> bool {
    48 <= (c as u32) <= 57
}

/// Whether `c` belongs to `class`.
pub open spec fn in_class(c: char, class: CharClass) -> bool {
    match class {
        CharClass::NameChar => is_ascii_letter(c) || is_ascii_digit(c) || c == '_',
        CharClass::Star => c == '*',
        CharClass::Digit => is_ascii_digit(c),
    }
}

/// The end of the longest run of `class` characters of `s` that starts at `i`.
pub open spec fn run_end(s: Seq<char>, i: int, class: CharClass) -> int
    decreases s.len() - i,
{
    if 0 <= i < s.len() && in_class(s[i], class) {
        run_end(s, i + 1, class)
    } else {
        i
    }
}

/// The text of a number: an optional sign, then digits with at most one `.`,
/// ending in a digit.
pub open spec fn is_number_text(t: Seq<char>) -> bool {
    let body = number_body(t);
    &&& body.len() > 0
    &&& is_ascii_digit(body.last())
    &&& forall|k: int| 0 <= k < body.len() ==> is_ascii_digit(#[trigger] body[k]) || body[k] == '.'
    &&& forall|k: int, l: int| 0 <= k < l < body.len() ==> !(#[trigger] body[k] == '.' && #[trigger] body[l] == '.')
}

/// A number's text without its sign.
pub open spec fn number_body(t: Seq<char>) -> Seq<char> {
    if t.len() > 0 && (t[0] == '+' || t[0] == '-') {
        t.skip(1)
    } else {
        t
    }
}

/// Where the identifier and the run of `*` after it end.
pub open spec fn stars_end(s: Seq<char>) -> int {
    run_end(s, run_end(s, 1, CharClass::NameChar), CharClass::Star)
}

/// Whether an address (`:` and digits) starts at `i`.
pub open spec fn address_at(s: Seq<char>, i: int) -> bool {
    0 <= i && i + 1 < s.len() && s[i] == ':' && is_ascii_digit(s[i + 1])
}

/// Where the address part ends (at `i` when there is none).
pub open spec fn address_end(s: Seq<char>, i: int) -> int {
    if address_at(s, i) {
        run_end(s, i + 1, CharClass::Digit)
    } else {
        i
    }
}

/// Whether a datatype (`:` and a name) starts at `i`.
pub open spec fn datatype_at(s: Seq<char>, i: int) -> bool {
    0 <= i && i + 1 < s.len() && s[i] == ':' && is_ascii_letter(s[i + 1])
}

/// Where the datatype part ends (at `i` when there is none).
pub open spec fn datatype_end(s: Seq<char>, i: int) -> int {
    if datatype_at(s, i) {
        run_end(s, i + 2, CharClass::NameChar)
    } else {
        i
    }
}

/// The parts of a description: identifier, run of `*`, address digits,
/// datatype and value text; `None` when `s` is not a description.
pub open spec fn described_env_var(s: Seq<char>) -> Option<
    (Seq<char>, Seq<char>, Option<Seq<char>>, Option<Seq<char>>, Option<Seq<char>>),
> {
    if s.len() == 0 || !is_ascii_letter(s[0]) {
        None
    } else {
        let i1 = run_end(s, 1, CharClass::NameChar);
        let i2 = stars_end(s);
        let i3 = address_end(s, i2);
        let i4 = datatype_end(s, i3);
        let address = if address_at(s, i2) {
            Some(s.subrange(i2 + 1, i3))
        } else {
            None
        };
        let datatype = if datatype_at(s, i3) {
            Some(s.subrange(i3 + 1, i4))
        } else {
            None
        };
        if i4 == s.len() {
            Some((s.subrange(0, i1), s.subrange(i1, i2), address, datatype, None))
        } else if s[i4] == '=' && is_number_text(s.subrange(i4 + 1, s.len() as int)) {
            Some(
                (
                    s.subrange(0, i1),
                    s.subrange(i1, i2),
                    address,
                    datatype,
                    Some(s.subrange(i4 + 1, s.len() as int)),
                ),
            )
        } else {
            None
        }
    }
}

/// The number that a run of decimal digits denotes.
pub open spec fn digits_value(d: Seq<char>) -> nat
    decreases d.len(),
{
    if d.len() == 0 {
        0
    } else {
        digits_value(d.drop_last()) * 10 + ((d.last() as u32) - 48) as nat
    }
}

/// The address a run of digits gives: its number, or none when the number
/// does not fit in a `usize`.
pub open spec fn address_value(d: Seq<char>) -> Option<usize> {
    if digits_value(d) <= usize::MAX {
        Some(digits_value(d) as usize)
    } else {
        None
    }
}

/// Whether a descriptor holds the parts of a description.
pub open spec fn holds_parts(
    d: CLIEnvVarDescriptor,
    p: (Seq<char>, Seq<char>, Option<Seq<char>>, Option<Seq<char>>, Option<Seq<char>>),
) -> bool {
    &&& d.identifier@ == p.0
    &&& d.qualifier@ == p.1
    &&& d.ptr_levels@ == p.1
    &&& d.given_address == (match p.2 {
        Some(a) => address_value(a),
        None => None,
    })
    &&& d.datatype@ == (match p.3 {
        Some(t) => t,
        None => Seq::<char>::empty(),
    })
    &&& (d.given_value is Some <==> p.4 is Some)
    &&& (d.given_value matches Some(v) ==> v@ == p.4.unwrap())
}

/// The end of the run of `class` characters of `s` from `i`.
fn scan_run(s: &Vec<char>, i: usize, class: CharClass) -> (r: usize)
    requires
        i <= s@.len(),
    ensures
        r as int == run_end(s@, i as int, class),
        i <= r <= s@.len(),
{
    let mut j = i;
    while j < s.len() && char_in_class(s[j], class)
        invariant
            i <= j <= s@.len(),
            run_end(s@, j as int, class) == run_end(s@, i as int, class),
        decreases s@.len() - j,
    {
        j = j + 1;
    }
    j
}

/// Whether `c` belongs to `class`.
fn char_in_class(c: char, class: CharClass) -> (r: bool)
    ensures
        r == in_class(c, class),
{
    let n = c as u32;
    match class {
        CharClass::NameChar => (65 <= n && n <= 90) || (97 <= n && n <= 122) || (48 <= n && n <= 57) || c
            == '_',
        CharClass::Star => c == '*',
        CharClass::Digit => 48 <= n && n <= 57,
    }
}

/// Whether `s[from..]` is the text of a number.
fn check_number_text(s: &Vec<char>, from: usize) -> (r: bool)
    requires
        from <= s@.len(),
    ensures
        r == is_number_text(s@.subrange(from as int, s@.len() as int)),
{
    let ghost t = s@.subrange(from as int, s@.len() as int);
    let mut start = from;
    if from < s.len() && (s[from] == '+' || s[from] == '-') {
        start = from + 1;
    }
    let ghost body = number_body(t);
    assert(body =~= s@.subrange(start as int, s@.len() as int));
    if start >= s.len() {
        return false;
    }
    let last = s[s.len() - 1] as u32;
    if !(48 <= last && last <= 57) {
        return false;
    }
    let mut seen_dot = false;
    let mut k = start;
    while k < s.len()
        invariant
            start <= k <= s@.len(),
            t == s@.subrange(from as int, s@.len() as int),
            body == number_body(t),
            body =~= s@.subrange(start as int, s@.len() as int),
            forall|m: int| 0 <= m < k - start ==> is_ascii_digit(#[trigger] body[m]) || body[m] == '.',
            forall|m: int, l: int| 0 <= m < l < k - start ==> !(#[trigger] body[m] == '.' && #[trigger] body[l] == '.'),
            seen_dot <==> exists|m: int| 0 <= m < k - start && #[trigger] body[m] == '.',
        decreases s@.len() - k,
    {
        let c = s[k];
        let n = c as u32;
        assert(body[k - start] == c);
        if c == '.' {
            if seen_dot {
                let ghost m = choose|m: int| 0 <= m < k - start && #[trigger] body[m] == '.';
                assert(m < k - start && body[m] == '.' && body[k - start] == '.');
                assert(!is_number_text(t));
                return false;
            }
            seen_dot = true;
        } else if !(48 <= n && n <= 57) {
            assert(!is_ascii_digit(body[k - start]) && body[k - start] != '.');
            assert(!is_number_text(t));
            return false;
        }
        k = k + 1;
    }
    true
}

/// The address that the digits `s[from..to]` give, as `address_value` says.
fn read_address(s: &Vec<char>, from: usize, to: usize) -> (r: Option<usize>)
    requires
        from <= to <= s@.len(),
        forall|k: int| from <= k < to ==> is_ascii_digit(#[trigger] s@[k]),
    ensures
        r == address_value(s@.subrange(from as int, to as int)),
{
    let mut acc: Option<usize> = Some(0);
    let mut k = from;
    assert(s@.subrange(from as int, from as int) =~= Seq::<char>::empty());
    while k < to
        invariant
            from <= k <= to <= s@.len(),
            forall|m: int| from <= m < to ==> is_ascii_digit(#[trigger] s@[m]),
            acc == address_value(s@.subrange(from as int, k as int)),
        decreases to - k,
    {
        let ghost prefix = s@.subrange(from as int, k as int);
        let ghost next = s@.subrange(from as int, k + 1);
        assert(next.drop_last() =~= prefix);
        assert(next.last() == s@[k as int]);
        assert(is_ascii_digit(s@[k as int]));
        let d = (s[k] as u32 - 48) as usize;
        assert(digits_value(next) == digits_value(prefix) * 10 + d);
        acc = match acc {
            Some(v) => match v.checked_mul(10) {
                Some(w) => w.checked_add(d),
                None => None,
            },
            None => None,
        };
        k = k + 1;
    }
    acc
}

impl CLIEnvVarDescriptor {
    /// Reads a description `identifier(*...)?(:address)?(:datatype)?(=value)?`:
    /// the whole text must have that form, else it is refused. An address too
    /// large for a `usize` is dropped.
    pub fn from_str(input: &str) -> (r: Result<CLIEnvVarDescriptor, EnvVarError>)
        ensures
            match described_env_var(input@) {
                None => r == Err::<CLIEnvVarDescriptor, EnvVarError>(EnvVarError::Form),
                Some(p) => r matches Ok(d) && holds_parts(d, p),
            },
    {
        let s = str_chars(input);
        let n = s.len();
        if n == 0 || !is_letter(s[0]) {
            return Err(EnvVarError::Form);
        }
        let i1 = scan_run(&s, 1, CharClass::NameChar);
        let i2 = scan_run(&s, i1, CharClass::Star);
        let has_address = i2 < n && i2 + 1 < n && s[i2] == ':' && char_in_class(s[i2 + 1], CharClass::Digit);
        let i3 = if has_address {
            scan_run(&s, i2 + 1, CharClass::Digit)
        } else {
            i2
        };
        let has_datatype = i3 < n && i3 + 1 < n && s[i3] == ':' && is_letter(s[i3 + 1]);
        let i4 = if has_datatype {
            scan_run(&s, i3 + 2, CharClass::NameChar)
        } else {
            i3
        };
        let ghost sv = s@;
        assert(i1 as int == run_end(sv, 1, CharClass::NameChar));
        assert(i2 as int == stars_end(sv));
        assert(i3 as int == address_end(sv, i2 as int));
        assert(i4 as int == datatype_end(sv, i3 as int));
        let given_value = if i4 == n {
            None
        } else if s[i4] == '=' && check_number_text(&s, i4 + 1) {
            Some(chars_to_string(&chars_between(&s, i4 + 1, n)))
        } else {
            return Err(EnvVarError::Form);
        };
        let given_address = if has_address {
            proof {
                lemma_run_in_class(sv, i2 + 1, CharClass::Digit);
            }
            read_address(&s, i2 + 1, i3)
        } else {
            None
        };
        let datatype = if has_datatype {
            chars_to_string(&chars_between(&s, i3 + 1, i4))
        } else {
            String::new()
        };
        let stars = chars_to_string(&chars_between(&s, i1, i2));
        let stars_again = chars_to_string(&chars_between(&s, i1, i2));
        let d = CLIEnvVarDescriptor {
            identifier: chars_to_string(&chars_between(&s, 0, i1)),
            given_address,
            given_value,
            datatype,
            qualifier: stars,
            ptr_levels: stars_again,
        };
        Ok(d)
    }
}

/// Whether `c` is an ASCII letter.
fn is_letter(c: char) -> (r: bool)
    ensures
        r == is_ascii_letter(c),
{
    let n = c as u32;
    (65 <= n && n <= 90) || (97 <= n && n <= 122)
}

/// Every character of the run from `i` belongs to its class.
proof fn lemma_run_in_class(s: Seq<char>, i: int, class: CharClass)
    requires
        0 <= i <= s.len(),
    ensures
        i <= run_end(s, i, class) <= s.len(),
        forall|k: int| i <= k < run_end(s, i, class) ==> in_class(#[trigger] s[k], class),
    decreases s.len() - i,
{
    if i < s.len() && in_class(s[i], class) {
        lemma_run_in_class(s, i + 1, class);
    }
}

} // verus!
