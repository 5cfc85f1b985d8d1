//! Character-level helpers shared by the text formats of the toolchain.
use vstd::prelude::*;

verus! {

/// The characters of a string slice, in order.
pub fn str_chars(s: &str) -> (r: Vec<char>)
    ensures
        r@ == s@,
{
    let mut out: Vec<char> = Vec::new();
    for c in it: s.chars()
        invariant
            out@ == it.seq().take(it.index()),
    {
        out.push(c);
    }
    out
}

/// Whether two character sequences are identical.
pub fn chars_equal(a: &Vec<char>, b: &Vec<char>) -> (r: bool)
    ensures
        r == (a@ == b@),
{
    if a.len() != b.len() {
        return false;
    }
    let mut i: usize = 0;
    while i < a.len()
        invariant
            a@.len() == b@.len(),
            i <= a@.len(),
            forall|j: int| 0 <= j < i ==> a@[j] == b@[j],
        decreases a@.len() - i,
    {
        if a[i] != b[i] {
            return false;
        }
        i = i + 1;
    }
    assert(a@ =~= b@);
    true
}

/// Appends one character to a string (std's `String::push`).
#[verifier::external_body]
pub fn string_push(s: &mut String, c: char)
    ensures
        final(s)@ == old(s)@.push(c),
{
    s.push(c);
}

/// Builds a string from a sequence of characters.
pub fn chars_to_string(v: &Vec<char>) -> (r: String)
    ensures
        r@ == v@,
{
    let mut out = String::new();
    let mut i: usize = 0;
    while i < v.len()
        invariant
            i <= v@.len(),
            out@ == v@.take(i as int),
        decreases v@.len() - i,
    {
        string_push(&mut out, v[i]);
        assert(v@.take(i as int).push(v@[i as int]) =~= v@.take(i + 1));
        i = i + 1;
    }
    assert(v@.take(v@.len() as int) =~= v@);
    out
}

/// Whether a character has the Unicode White_Space property: tab, line feed,
/// vertical tab, form feed, carriage return, space, next line, no-break
/// space, ogham space mark, the spaces U+2000 to U+200A, line and paragraph
/// separators, narrow no-break space, medium mathematical space and
/// ideographic space.
pub open spec fn is_white_space(c: char) -> bool {
    let n = c as u32;
    ||| 9 <= n <= 13
    ||| n == 32
    ||| n == 0x85
    ||| n == 0xA0
    ||| n == 0x1680
    ||| 0x2000 <= n <= 0x200A
    ||| n == 0x2028
    ||| n == 0x2029
    ||| n == 0x202F
    ||| n == 0x205F
    ||| n == 0x3000
}

/// The lowercase form of a string, as std's `str::to_lowercase` computes it.
pub uninterp spec fn lowercase(s: Seq<char>) -> Seq<char>;

/// An ASCII character in lowercase: `A` to `Z` become `a` to `z`, any other
/// character stays.
pub open spec fn ascii_lower(c: char) -> char {
    if 65 <= (c as u32) <= 90 {
        ((c as u32) + 32) as char
    } else {
        c
    }
}

/// Whether a character has the Unicode White_Space property (see
/// `is_white_space`), as std's `char::is_whitespace` decides it.
pub fn char_is_whitespace(c: char) -> (r: bool)
    ensures
        r == is_white_space(c),
{
    let n = c as u32;
    (9 <= n && n <= 13) || n == 32 || n == 0x85 || n == 0xA0 || n == 0x1680 || (0x2000 <= n && n <= 0x200A)
        || n == 0x2028 || n == 0x2029 || n == 0x202F || n == 0x205F || n == 0x3000
}

/// Every character of the text is ASCII.
pub open spec fn all_ascii(s: Seq<char>) -> bool {
    forall|i: int| 0 <= i < s.len() ==> (#[trigger] s[i] as u32) < 128
}

/// An ASCII text with its letters in lowercase.
pub open spec fn ascii_lowercase(s: Seq<char>) -> Seq<char> {
    s.map_values(|c: char| ascii_lower(c))
}

/// std's `str::to_lowercase`. The contract names its result `lowercase(s@)`
/// and states what the Unicode lowercase mapping gives on ASCII text: each
/// character in its ASCII lowercase form. Of other text it states nothing.
#[verifier::external_body]
pub fn str_to_lowercase(s: &str) -> (r: String)
    ensures
        r@ == lowercase(s@),
        (forall|i: int| 0 <= i < s@.len() ==> (#[trigger] s@[i] as u32) < 128) ==> r@ == s@.map_values(
            |c: char| ascii_lower(c),
        ),
{
    s.to_lowercase()
}

/// Number of white-space characters at the start of `s`.
pub open spec fn leading_white_space(s: Seq<char>) -> nat
    decreases s.len(),
{
    if s.len() > 0 && is_white_space(s[0]) {
        1 + leading_white_space(s.drop_first())
    } else {
        0
    }
}

/// Number of white-space characters at the end of `s`.
pub open spec fn trailing_white_space(s: Seq<char>) -> nat
    decreases s.len(),
{
    if s.len() > 0 && is_white_space(s.last()) {
        1 + trailing_white_space(s.drop_last())
    } else {
        0
    }
}

/// `s` without its leading and trailing white space, as std's `str::trim` gives it.
pub open spec fn trimmed(s: Seq<char>) -> Seq<char> {
    let front = leading_white_space(s);
    if front == s.len() {
        Seq::empty()
    } else {
        s.subrange(front as int, s.len() - trailing_white_space(s))
    }
}

/// The white space at the start is at most the whole sequence, and all of it is white space.
pub proof fn lemma_leading_white_space(s: Seq<char>)
    ensures
        leading_white_space(s) <= s.len(),
        forall|i: int| 0 <= i < leading_white_space(s) ==> is_white_space(#[trigger] s[i]),
        leading_white_space(s) < s.len() ==> !is_white_space(s[leading_white_space(s) as int]),
    decreases s.len(),
{
    if s.len() > 0 && is_white_space(s[0]) {
        lemma_leading_white_space(s.drop_first());
        assert forall|i: int| 0 <= i < leading_white_space(s) implies is_white_space(#[trigger] s[i]) by {
            if i > 0 {
                assert(s[i] == s.drop_first()[i - 1]);
            }
        }
    }
}

/// The white space at the end is at most the whole sequence, and all of it is white space.
pub proof fn lemma_trailing_white_space(s: Seq<char>)
    ensures
        trailing_white_space(s) <= s.len(),
        forall|i: int| s.len() - trailing_white_space(s) <= i < s.len() ==> is_white_space(#[trigger] s[i]),
        trailing_white_space(s) < s.len() ==> !is_white_space(s[s.len() - trailing_white_space(s) - 1]),
    decreases s.len(),
{
    if s.len() > 0 && is_white_space(s.last()) {
        lemma_trailing_white_space(s.drop_last());
        assert forall|i: int| s.len() - trailing_white_space(s) <= i < s.len() implies is_white_space(#[trigger] s[i]) by {
            if i < s.len() - 1 {
                assert(s[i] == s.drop_last()[i]);
            }
        }
    }
}

/// The white space at the start is exactly the run of white space before
/// the first other character.
proof fn lemma_leading_is(s: Seq<char>, k: nat)
    requires
        k <= s.len(),
        forall|i: int| 0 <= i < k ==> is_white_space(#[trigger] s[i]),
        k < s.len() ==> !is_white_space(s[k as int]),
    ensures
        leading_white_space(s) == k,
    decreases k,
{
    if k > 0 {
        assert(is_white_space(s[0]));
        let rest = s.drop_first();
        assert forall|i: int| 0 <= i < k - 1 implies is_white_space(#[trigger] rest[i]) by {
            assert(rest[i] == s[i + 1]);
        }
        if k - 1 < rest.len() {
            assert(rest[k - 1] == s[k as int]);
        }
        lemma_leading_is(rest, (k - 1) as nat);
    }
}

/// The white space at the end is exactly the run of white space after the
/// last other character.
proof fn lemma_trailing_is(s: Seq<char>, k: nat)
    requires
        k <= s.len(),
        forall|i: int| s.len() - k <= i < s.len() ==> is_white_space(#[trigger] s[i]),
        k < s.len() ==> !is_white_space(s[s.len() - k - 1]),
    ensures
        trailing_white_space(s) == k,
    decreases k,
{
    if k > 0 {
        assert(is_white_space(s[s.len() - 1]));
        let rest = s.drop_last();
        assert forall|i: int| rest.len() - (k - 1) <= i < rest.len() implies is_white_space(#[trigger] rest[i]) by {
            assert(rest[i] == s[i]);
        }
        if k - 1 < rest.len() {
            assert(rest[rest.len() - (k - 1) - 1] == s[s.len() - k - 1]);
        }
        lemma_trailing_is(rest, (k - 1) as nat);
    }
}

/// Padding a text with white space on either side leaves its trimmed form
/// as it is.
pub proof fn law_trim_ignores_padding(front: Seq<char>, text: Seq<char>, back: Seq<char>)
    requires
        forall|i: int| 0 <= i < front.len() ==> is_white_space(#[trigger] front[i]),
        forall|i: int| 0 <= i < back.len() ==> is_white_space(#[trigger] back[i]),
    ensures
        trimmed(front + text + back) == trimmed(text),
{
    let s = front + text + back;
    let f = front.len();
    lemma_leading_white_space(text);
    lemma_trailing_white_space(text);
    let l = leading_white_space(text);
    let t = trailing_white_space(text);
    if l == text.len() {
        assert forall|i: int| 0 <= i < s.len() implies is_white_space(#[trigger] s[i]) by {
            if i < f {
                assert(s[i] == front[i]);
            } else if i < f + text.len() {
                assert(s[i] == text[i - f]);
            } else {
                assert(s[i] == back[i - f - text.len()]);
            }
        }
        lemma_leading_is(s, s.len());
    } else {
        assert(l < text.len() - t) by {
            if l >= text.len() - t {
                assert(is_white_space(text[l as int]));
            }
        }
        assert forall|i: int| 0 <= i < f + l implies is_white_space(#[trigger] s[i]) by {
            if i < f {
                assert(s[i] == front[i]);
            } else {
                assert(s[i] == text[i - f]);
            }
        }
        assert(s[(f + l) as int] == text[l as int]);
        lemma_leading_is(s, (f + l) as nat);
        let b = back.len();
        assert forall|i: int| s.len() - (b + t) <= i < s.len() implies is_white_space(#[trigger] s[i]) by {
            if i >= f + text.len() {
                assert(s[i] == back[i - f - text.len()]);
            } else {
                assert(s[i] == text[i - f]);
            }
        }
        assert(s[s.len() - (b + t) - 1] == text[text.len() - t - 1]);
        lemma_trailing_is(s, (b + t) as nat);
        assert(s.subrange((f + l) as int, s.len() - (b + t)) =~= text.subrange(l as int, text.len() - t));
    }
}

/// Counts the white space at the start of `v[from..]`.
fn count_leading_white_space(v: &Vec<char>, from: usize) -> (r: usize)
    requires
        from <= v@.len(),
    ensures
        r == leading_white_space(v@.subrange(from as int, v@.len() as int)),
    decreases v@.len() - from,
{
    if from < v.len() && char_is_whitespace(v[from]) {
        assert(v@.subrange(from as int, v@.len() as int).drop_first() =~= v@.subrange(from + 1, v@.len() as int));
        let rest = count_leading_white_space(v, from + 1);
        proof {
            lemma_leading_white_space(v@.subrange(from + 1, v@.len() as int));
        }
        rest + 1
    } else {
        0
    }
}

/// Counts the white space at the end of `v[..to]`.
fn count_trailing_white_space(v: &Vec<char>, to: usize) -> (r: usize)
    requires
        to <= v@.len(),
    ensures
        r == trailing_white_space(v@.subrange(0, to as int)),
    decreases to,
{
    if to > 0 && char_is_whitespace(v[to - 1]) {
        assert(v@.subrange(0, to as int).drop_last() =~= v@.subrange(0, to - 1));
        let rest = count_trailing_white_space(v, to - 1);
        proof {
            lemma_trailing_white_space(v@.subrange(0, to - 1));
        }
        rest + 1
    } else {
        0
    }
}

/// The characters of `v` without leading and trailing white space.
pub fn trim_chars(v: &Vec<char>) -> (r: Vec<char>)
    ensures
        r@ == trimmed(v@),
{
    assert(v@.subrange(0, v@.len() as int) =~= v@);
    let front = count_leading_white_space(v, 0);
    proof {
        lemma_leading_white_space(v@);
    }
    if front == v.len() {
        return Vec::new();
    }
    let back = count_trailing_white_space(v, v.len());
    proof {
        lemma_trailing_white_space(v@);
        // The non-white character at `front` keeps the two counts apart.
        if front + back > v@.len() {
            assert(is_white_space(v@[front as int]));
        }
    }
    let mut out: Vec<char> = Vec::new();
    let end = v.len() - back;
    let mut i = front;
    while i < end
        invariant
            front <= i <= end,
            end <= v@.len(),
            out@ == v@.subrange(front as int, i as int),
        decreases end - i,
    {
        out.push(v[i]);
        assert(out@ =~= v@.subrange(front as int, i + 1));
        i = i + 1;
    }
    out
}

/// The decimal digits of a number, most significant first.
pub open spec fn decimal(n: nat) -> Seq<char>
    decreases n,
{
    if n < 10 {
        seq![digit_char(n)]
    } else {
        decimal(n / 10).push(digit_char(n % 10))
    }
}

/// The character of a decimal digit.
pub open spec fn digit_char(d: nat) -> char {
    if d == 0 { '0' } else if d == 1 { '1' } else if d == 2 { '2' } else if d == 3 { '3' } else if d == 4 {
        '4'
    } else if d == 5 { '5' } else if d == 6 { '6' } else if d == 7 { '7' } else if d == 8 { '8' } else { '9' }
}

/// The character of a decimal digit.
fn exec_digit_char(d: u64) -> (r: char)
    requires
        d < 10,
    ensures
        r == digit_char(d as nat),
{
    if d == 0 { '0' } else if d == 1 { '1' } else if d == 2 { '2' } else if d == 3 { '3' } else if d == 4 {
        '4'
    } else if d == 5 { '5' } else if d == 6 { '6' } else if d == 7 { '7' } else if d == 8 { '8' } else { '9' }
}

/// Appends the decimal digits of `n` to `out`.
pub fn push_decimal(out: &mut Vec<char>, n: u64)
    ensures
        final(out)@ == old(out)@ + decimal(n as nat),
    decreases n,
{
    if n < 10 {
        out.push(exec_digit_char(n));
        assert(old(out)@.push(digit_char(n as nat)) =~= old(out)@ + seq![digit_char(n as nat)]);
    } else {
        push_decimal(out, n / 10);
        out.push(exec_digit_char(n % 10));
        assert(old(out)@ + decimal((n / 10) as nat) + seq![digit_char((n % 10) as nat)] =~= old(out)@ + decimal(
            n as nat,
        ));
    }
}

/// Whether `delim` occurs in `s` at position `i`.
pub open spec fn occurs_at(s: Seq<char>, delim: Seq<char>, i: int) -> bool {
    0 <= i && i + delim.len() <= s.len() && s.subrange(i, i + delim.len()) == delim
}

/// The first position at or after `i` where `delim` occurs in `s`, if any.
pub open spec fn first_occurrence(s: Seq<char>, delim: Seq<char>, i: int) -> Option<int>
    decreases s.len() + 1 - i,
{
    if i < 0 || i + delim.len() > s.len() {
        None
    } else if occurs_at(s, delim, i) {
        Some(i)
    } else {
        first_occurrence(s, delim, i + 1)
    }
}

/// A position `first_occurrence` gives lies within `s`, at or after `i`.
pub proof fn lemma_first_occurrence_bounds(s: Seq<char>, delim: Seq<char>, i: int)
    ensures
        first_occurrence(s, delim, i) matches Some(p) ==> i <= p && p + delim.len() <= s.len() && occurs_at(
            s,
            delim,
            p,
        ),
    decreases s.len() + 1 - i,
{
    if !(i < 0 || i + delim.len() > s.len()) && !occurs_at(s, delim, i) {
        lemma_first_occurrence_bounds(s, delim, i + 1);
    }
}

/// The pieces of `s` between the occurrences of `delim`, found from left to
/// right as std's `str::split` finds them. An empty delimiter yields an empty
/// piece, one piece per character, and another empty piece.
pub open spec fn split_pieces(s: Seq<char>, delim: Seq<char>) -> Seq<Seq<char>>
    decreases s.len(),
{
    if delim.len() == 0 {
        seq![Seq::<char>::empty()] + Seq::new(s.len(), |i: int| seq![s[i]]) + seq![Seq::<char>::empty()]
    } else {
        match first_occurrence(s, delim, 0) {
            Some(p) => {
                proof {
                    lemma_first_occurrence_bounds(s, delim, 0);
                }
                seq![s.take(p)] + split_pieces(s.skip(p + delim.len()), delim)
            },
            None => seq![s],
        }
    }
}

/// Whether `delim` occurs in `s` at position `i` (exec form of `occurs_at`).
fn matches_at(s: &Vec<char>, delim: &Vec<char>, i: usize) -> (r: bool)
    requires
        i + delim@.len() <= s@.len(),
    ensures
        r == occurs_at(s@, delim@, i as int),
{
    let mut j: usize = 0;
    let n = s.len();
    while j < delim.len()
        invariant
            n == s@.len(),
            i + delim@.len() <= s@.len(),
            j <= delim@.len(),
            forall|k: int| 0 <= k < j ==> s@[i + k] == delim@[k],
        decreases delim@.len() - j,
    {
        if s[i + j] != delim[j] {
            assert(s@.subrange(i as int, i + delim@.len())[j as int] != delim@[j as int]);
            return false;
        }
        j = j + 1;
    }
    assert(s@.subrange(i as int, i + delim@.len()) =~= delim@);
    true
}

/// The characters of `s` from `start` up to `end`.
pub fn chars_between(s: &Vec<char>, start: usize, end: usize) -> (r: Vec<char>)
    requires
        start <= end <= s@.len(),
    ensures
        r@ == s@.subrange(start as int, end as int),
{
    let mut out: Vec<char> = Vec::new();
    let mut i: usize = start;
    while i < end
        invariant
            start <= i <= end <= s@.len(),
            out@ == s@.subrange(start as int, i as int),
        decreases end - i,
    {
        out.push(s[i]);
        assert(s@.subrange(start as int, i as int).push(s@[i as int]) =~= s@.subrange(start as int, i + 1));
        i = i + 1;
    }
    out
}

/// Splits `s` at the occurrences of `delim` (see `split_pieces`).
pub fn split_chars(s: &Vec<char>, delim: &Vec<char>) -> (r: Vec<Vec<char>>)
    ensures
        r@.map_values(|p: Vec<char>| p@) == split_pieces(s@, delim@),
{
    let mut pieces: Vec<Vec<char>> = Vec::new();
    if delim.len() == 0 {
        pieces.push(Vec::new());
        let mut i: usize = 0;
        while i < s.len()
            invariant
                i <= s@.len(),
                pieces@.len() == i + 1,
                pieces@[0]@ == Seq::<char>::empty(),
                forall|k: int| 1 <= k <= i ==> (#[trigger] pieces@[k])@ == seq![s@[k - 1]],
            decreases s@.len() - i,
        {
            let mut one: Vec<char> = Vec::new();
            one.push(s[i]);
            pieces.push(one);
            i = i + 1;
        }
        pieces.push(Vec::new());
        assert(pieces@.map_values(|p: Vec<char>| p@) =~= split_pieces(s@, delim@));
        return pieces;
    }
    let mut start: usize = 0;
    let mut i: usize = 0;
    assert(s@.skip(0) =~= s@);
    assert(pieces@.map_values(|q: Vec<char>| q@) =~= Seq::<Seq<char>>::empty());
    while delim.len() <= s.len() - i
        invariant
            delim@.len() > 0,
            start <= i <= s@.len(),
            pieces@.map_values(|p: Vec<char>| p@) + split_pieces(s@.skip(start as int), delim@) == split_pieces(
                s@,
                delim@,
            ),
            first_occurrence(s@.skip(start as int), delim@, 0) == first_occurrence(
                s@.skip(start as int),
                delim@,
                i - start,
            ),
        decreases s@.len() - i,
    {
        let ghost rest = s@.skip(start as int);
        let ghost p = i - start;
        assert(rest.subrange(p, p + delim@.len()) =~= s@.subrange(i as int, i + delim@.len()));
        if matches_at(s, delim, i) {
            let piece = chars_between(s, start, i);
            proof {
                assert(occurs_at(rest, delim@, p));
                assert(first_occurrence(rest, delim@, p) == Some(p));
                assert(rest.take(p) =~= piece@);
                assert(rest.skip(p + delim@.len()) =~= s@.skip(i + delim@.len()));
                assert(split_pieces(rest, delim@) == seq![rest.take(p)] + split_pieces(
                    rest.skip(p + delim@.len()),
                    delim@,
                ));
            }
            let ghost before = pieces@.map_values(|q: Vec<char>| q@);
            pieces.push(piece);
            assert(pieces@.map_values(|q: Vec<char>| q@) =~= before.push(piece@));
            assert(before.push(piece@) + split_pieces(s@.skip(i + delim@.len()), delim@) =~= before + (seq![
                piece@,
            ] + split_pieces(s@.skip(i + delim@.len()), delim@)));
            i = i + delim.len();
            start = i;
        } else {
            assert(!occurs_at(rest, delim@, p));
            i = i + 1;
        }
    }
    let ghost rest = s@.skip(start as int);
    assert(first_occurrence(rest, delim@, i - start) is None);
    let tail = chars_between(s, start, s.len());
    let ghost before = pieces@.map_values(|q: Vec<char>| q@);
    pieces.push(tail);
    assert(tail@ =~= rest);
    assert(pieces@.map_values(|q: Vec<char>| q@) =~= before.push(rest));
    assert(before + split_pieces(rest, delim@) =~= before.push(rest));
    pieces
}

/// Every character of a decimal numeral is a digit.
pub proof fn lemma_decimal_digits(n: nat)
    ensures
        decimal(n).len() >= 1,
        n >= 10 ==> decimal(n).len() >= 2,
        forall|k: int| 0 <= k < decimal(n).len() ==> '0' <= #[trigger] decimal(n)[k] <= '9',
    decreases n,
{
    if n >= 10 {
        lemma_decimal_digits(n / 10);
        let d = decimal(n / 10);
        assert forall|k: int| 0 <= k < decimal(n).len() implies '0' <= #[trigger] decimal(n)[k] <= '9' by {
            if k < d.len() {
                assert(decimal(n)[k] == d[k]);
            }
        }
    }
}

/// Different numbers have different decimal numerals.
pub proof fn lemma_decimal_injective(n: nat, m: nat)
    requires
        decimal(n) == decimal(m),
    ensures
        n == m,
    decreases n,
{
    lemma_decimal_digits(n);
    lemma_decimal_digits(m);
    if n >= 10 && m >= 10 {
        assert(decimal(n).drop_last() =~= decimal(n / 10));
        assert(decimal(m).drop_last() =~= decimal(m / 10));
        lemma_decimal_injective(n / 10, m / 10);
        assert(decimal(n).last() == digit_char(n % 10));
        assert(decimal(m).last() == digit_char(m % 10));
        lemma_digit_char_injective(n % 10, m % 10);
    } else if n < 10 && m < 10 {
        assert(decimal(n)[0] == digit_char(n));
        assert(decimal(m)[0] == digit_char(m));
        lemma_digit_char_injective(n, m);
    }
}

/// Different digits have different characters.
proof fn lemma_digit_char_injective(a: nat, b: nat)
    requires
        a < 10,
        b < 10,
        digit_char(a) == digit_char(b),
    ensures
        a == b,
{
}

} // verus!
