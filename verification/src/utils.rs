//! Packing of string literals into machine words for the VM.
use vstd::prelude::*;
use crate::text::str_chars;

verus! {

/// The character an escape letter stands for after a backslash, if it is one.
pub open spec fn escaped_char(c: char) -> Option<char> {
    if c == 'a' {
        Some('\x07')
    } else if c == 'b' {
        Some('\x08')
    } else if c == 'f' {
        Some('\x0C')
    } else if c == 'n' {
        Some('\n')
    } else if c == 'r' {
        Some('\r')
    } else if c == 't' {
        Some('\t')
    } else if c == 'v' {
        Some('\x0B')
    } else if c == '\\' {
        Some('\\')
    } else if c == '\'' {
        Some('\'')
    } else if c == '"' {
        Some('"')
    } else if c == '?' {
        Some('?')
    } else {
        None
    }
}

/// The text with its escape sequences replaced. A backslash before a letter
/// that is no escape, or at the very end, stays as it is.
pub open spec fn unescape(s: Seq<char>) -> Seq<char>
    decreases s.len(),
{
    if s.len() == 0 {
        Seq::empty()
    } else if s[0] == '\\' && s.len() > 1 && escaped_char(s[1]) is Some {
        seq![escaped_char(s[1]).unwrap()] + unescape(s.skip(2))
    } else {
        seq![s[0]] + unescape(s.skip(1))
    }
}

fn exec_escaped_char(c: char) -> (r: Option<char>)
    ensures
        r == escaped_char(c),
{
    match c {
        'a' => Some('\x07'),
        'b' => Some('\x08'),
        'f' => Some('\x0C'),
        'n' => Some('\n'),
        'r' => Some('\r'),
        't' => Some('\t'),
        'v' => Some('\x0B'),
        '\\' => Some('\\'),
        '\'' => Some('\''),
        '"' => Some('"'),
        '?' => Some('?'),
        _ => None,
    }
}

/// Replaces the escape sequences of a text (see `unescape`).
pub fn unescape_chars(s: &Vec<char>) -> (r: Vec<char>)
    ensures
        r@ == unescape(s@),
{
    let mut out: Vec<char> = Vec::new();
    let n = s.len();
    let mut i: usize = 0;
    assert(s@.skip(0) =~= s@);
    while i < n
        invariant
            n == s@.len(),
            i <= n,
            out@ + unescape(s@.skip(i as int)) == unescape(s@),
        decreases n - i,
    {
        let ghost rest = s@.skip(i as int);
        let c = s[i];
        if c == '\\' && i + 1 < n {
            match exec_escaped_char(s[i + 1]) {
                Some(e) => {
                    assert(rest.skip(2) =~= s@.skip(i + 2));
                    assert(out@.push(e) + unescape(s@.skip(i + 2)) =~= out@ + unescape(rest));
                    out.push(e);
                    i = i + 2;
                },
                None => {
                    assert(rest.skip(1) =~= s@.skip(i + 1));
                    assert(out@.push(c) + unescape(s@.skip(i + 1)) =~= out@ + unescape(rest));
                    out.push(c);
                    i = i + 1;
                },
            }
        } else {
            assert(rest.skip(1) =~= s@.skip(i + 1));
            assert(out@.push(c) + unescape(s@.skip(i + 1)) =~= out@ + unescape(rest));
            out.push(c);
            i = i + 1;
        }
    }
    assert(unescape(s@.skip(n as int)) =~= Seq::<char>::empty());
    assert(out@ + Seq::<char>::empty() =~= out@);
    out
}

/// The UTF-8 encoding of one character.
pub open spec fn utf8_char(c: char) -> Seq<u8> {
    let cp = c as u32;
    if cp < 0x80 {
        seq![cp as u8]
    } else if cp < 0x800 {
        seq![(0xC0 + cp / 64) as u8, (0x80 + cp % 64) as u8]
    } else if cp < 0x10000 {
        seq![(0xE0 + cp / 4096) as u8, (0x80 + (cp / 64) % 64) as u8, (0x80 + cp % 64) as u8]
    } else {
        seq![
            (0xF0 + cp / 262144) as u8,
            (0x80 + (cp / 4096) % 64) as u8,
            (0x80 + (cp / 64) % 64) as u8,
            (0x80 + cp % 64) as u8,
        ]
    }
}

/// The UTF-8 encoding of a text, the bytes std's `str::as_bytes` holds.
pub open spec fn utf8(s: Seq<char>) -> Seq<u8>
    decreases s.len(),
{
    if s.len() == 0 {
        Seq::empty()
    } else {
        utf8(s.drop_last()) + utf8_char(s.last())
    }
}

/// Encodes text as UTF-8.
pub fn utf8_encode(s: &Vec<char>) -> (r: Vec<u8>)
    ensures
        r@ == utf8(s@),
{
    let mut out: Vec<u8> = Vec::new();
    let n = s.len();
    let mut i: usize = 0;
    while i < n
        invariant
            n == s@.len(),
            i <= n,
            out@ == utf8(s@.take(i as int)),
        decreases n - i,
    {
        let cp = s[i] as u32;
        if cp < 0x80 {
            out.push(cp as u8);
        } else if cp < 0x800 {
            out.push((0xC0 + cp / 64) as u8);
            out.push((0x80 + cp % 64) as u8);
        } else if cp < 0x10000 {
            out.push((0xE0 + cp / 4096) as u8);
            out.push((0x80 + (cp / 64) % 64) as u8);
            out.push((0x80 + cp % 64) as u8);
        } else {
            out.push((0xF0 + cp / 262144) as u8);
            out.push((0x80 + (cp / 4096) % 64) as u8);
            out.push((0x80 + (cp / 64) % 64) as u8);
            out.push((0x80 + cp % 64) as u8);
        }
        assert(s@.take(i + 1).drop_last() =~= s@.take(i as int));
        assert(out@ =~= utf8(s@.take(i as int)) + utf8_char(s@[i as int]));
        i = i + 1;
    }
    assert(s@.take(n as int) =~= s@);
    out
}

/// 256 to the power `n`.
pub open spec fn pow256(n: nat) -> nat
    decreases n,
{
    if n == 0 {
        1
    } else {
        256 * pow256((n - 1) as nat)
    }
}

/// The number whose little-endian bytes are `bytes`.
pub open spec fn le_value(bytes: Seq<u8>) -> nat
    decreases bytes.len(),
{
    if bytes.len() == 0 {
        0
    } else {
        le_value(bytes.drop_last()) + (bytes.last() as nat) * pow256((bytes.len() - 1) as nat)
    }
}

/// The word packed from a chunk of at most `chunk_size` bytes: the first
/// byte lowest, then shifted up so that a short chunk is padded with zero
/// bytes at the low end.
pub open spec fn packed_word(chunk: Seq<u8>, chunk_size: nat) -> nat {
    le_value(chunk) * pow256((chunk_size - chunk.len()) as nat)
}

/// The words of `bytes` cut into chunks of `chunk_size` (the last one may be shorter).
pub open spec fn packed_words(bytes: Seq<u8>, chunk_size: nat) -> Seq<nat>
    decreases bytes.len(),
{
    if bytes.len() == 0 || chunk_size == 0 {
        Seq::empty()
    } else if bytes.len() <= chunk_size {
        seq![packed_word(bytes, chunk_size)]
    } else {
        seq![packed_word(bytes.take(chunk_size as int), chunk_size)] + packed_words(
            bytes.skip(chunk_size as int),
            chunk_size,
        )
    }
}

/// The bytes a precision packs per word: 4 for 32, 8 for 64.
pub open spec fn chunk_size_of(precision: usize) -> nat {
    if precision == 32 {
        4
    } else {
        8
    }
}

/// What packing a string gives: its escape sequences replaced, encoded as
/// UTF-8, cut into chunks and each chunk packed into a word.
pub open spec fn spec_packed_string(input: Seq<char>, precision: usize) -> Seq<nat> {
    packed_words(utf8(unescape(input)), chunk_size_of(precision))
}

proof fn lemma_pow256_adds(a: nat, b: nat)
    ensures
        pow256(a + b) == pow256(a) * pow256(b),
    decreases a,
{
    if a > 0 {
        let a1 = (a - 1) as nat;
        lemma_pow256_adds(a1, b);
        assert(a1 + b == (a + b - 1) as nat);
        assert(pow256(a + b) == 256 * pow256(a1 + b));
        assert(pow256(a) == 256 * pow256(a1));
        let x = pow256(a1);
        let y = pow256(b);
        assert(256 * (x * y) == (256 * x) * y) by (nonlinear_arith);
        assert(pow256(a + b) == pow256(a) * pow256(b));
    } else {
        assert(pow256(0) == 1);
        assert(a + b == b);
        assert(pow256(a + b) == pow256(a) * pow256(b));
    }
}

proof fn lemma_pow256_positive(a: nat)
    ensures
        pow256(a) >= 1,
    decreases a,
{
    if a > 0 {
        lemma_pow256_positive((a - 1) as nat);
    }
}

/// A little-endian number of `n` bytes is less than 256^n.
proof fn lemma_le_value_bound(bytes: Seq<u8>)
    ensures
        le_value(bytes) < pow256(bytes.len()),
    decreases bytes.len(),
{
    if bytes.len() > 0 {
        let n = (bytes.len() - 1) as nat;
        lemma_le_value_bound(bytes.drop_last());
        let p = pow256(n);
        let v = le_value(bytes.drop_last());
        let b = bytes.last();
        assert(v + b * p < 256 * p) by (nonlinear_arith)
            requires
                v < p,
                b <= 255,
        ;
    }
}

/// 256 to the eighth is 2 to the 64th.
proof fn lemma_pow256_eight()
    ensures
        pow256(8) == 0x1_0000_0000_0000_0000,
{
    assert(pow256(0) == 1);
    assert(pow256(1) == 256);
    assert(pow256(2) == 0x1_0000);
    assert(pow256(3) == 0x100_0000);
    assert(pow256(4) == 0x1_0000_0000);
    assert(pow256(5) == 0x100_0000_0000);
    assert(pow256(6) == 0x1_0000_0000_0000);
    assert(pow256(7) == 0x100_0000_0000_0000);
}

/// Powers of 256 grow with the exponent.
proof fn lemma_pow256_monotone(a: nat, b: nat)
    requires
        a <= b,
    ensures
        pow256(a) <= pow256(b),
    decreases b - a,
{
    if a < b {
        lemma_pow256_monotone(a, (b - 1) as nat);
        lemma_pow256_positive((b - 1) as nat);
    }
}

/// 256 to the power `n`, for `n` at most 8.
fn pow256_exec(n: usize) -> (r: u128)
    requires
        n <= 8,
    ensures
        r == pow256(n as nat),
{
    let mut r: u128 = 1;
    let mut i: usize = 0;
    while i < n
        invariant
            i <= n <= 8,
            r == pow256(i as nat),
        decreases n - i,
    {
        proof {
            lemma_pow256_monotone(i as nat, 8);
            lemma_pow256_eight();
        }
        r = r * 256;
        i = i + 1;
    }
    r
}

/// Packs one chunk of at most `chunk_size` (at most 8) bytes into a word.
fn pack_chunk(bytes: &Vec<u8>, start: usize, end: usize, chunk_size: usize) -> (r: u64)
    requires
        start < end <= bytes@.len(),
        end - start <= chunk_size <= 8,
    ensures
        r == packed_word(bytes@.subrange(start as int, end as int), chunk_size as nat),
{
    let ghost chunk = bytes@.subrange(start as int, end as int);
    let mut packed: u128 = 0;
    let mut mult: u128 = 1;
    let mut i: usize = start;
    assert(chunk.take(0) =~= Seq::<u8>::empty());
    proof {
        lemma_pow256_eight();
    }
    while i < end
        invariant
            start <= i <= end <= bytes@.len(),
            end - start <= 8,
            chunk == bytes@.subrange(start as int, end as int),
            packed == le_value(chunk.take(i - start)),
            mult == pow256((i - start) as nat),
            pow256(8) == 0x1_0000_0000_0000_0000,
        decreases end - i,
    {
        let k = i - start;
        let b = bytes[i];
        proof {
            lemma_le_value_bound(chunk.take(k as int));
            lemma_pow256_monotone(k as nat, 8);
            let p = pow256(k as nat);
            assert(packed + b * p < 256 * p) by (nonlinear_arith)
                requires
                    packed < p,
                    b <= 255,
            ;
            assert(chunk.take(k + 1).drop_last() =~= chunk.take(k as int));
            assert(chunk.take(k + 1).last() == b);
        }
        packed = packed + (b as u128) * mult;
        mult = mult * 256;
        i = i + 1;
    }
    let len = end - start;
    assert(chunk.take(len as int) =~= chunk);
    let shift = pow256_exec(chunk_size - len);
    proof {
        lemma_le_value_bound(chunk);
        lemma_pow256_adds(len as nat, (chunk_size - len) as nat);
        lemma_pow256_monotone(chunk_size as nat, 8);
        let a = packed as nat;
        let pl = pow256(len as nat);
        let s = pow256((chunk_size - len) as nat);
        lemma_pow256_positive((chunk_size - len) as nat);
        assert(a * s < pl * s) by (nonlinear_arith)
            requires
                a < pl,
                s >= 1,
        ;
    }
    (packed * shift) as u64
}

/// Packs a string literal into words for the VM: escape sequences are
/// replaced, the text is encoded as UTF-8 and cut into chunks of 4 bytes
/// (precision 32) or 8 bytes (precision 64); the first byte of a chunk is
/// the lowest, and a short last chunk is shifted up to fill the word.
pub fn pack_string_to_words(input: &str, precision: usize) -> (r: Vec<u64>)
    requires
        precision == 32 || precision == 64,
    ensures
        r@.len() == spec_packed_string(input@, precision).len(),
        forall|k: int| 0 <= k < r@.len() ==> r@[k] as nat == #[trigger] spec_packed_string(input@, precision)[k],
{
    let chars = str_chars(input);
    let processed = unescape_chars(&chars);
    let bytes = utf8_encode(&processed);
    let chunk_size: usize = if precision == 32 { 4 } else { 8 };
    let ghost all = bytes@;
    let mut result: Vec<u64> = Vec::new();
    let n = bytes.len();
    let mut start: usize = 0;
    assert(all.skip(0) =~= all);
    while start < n
        invariant
            n == bytes@.len(),
            all == bytes@,
            start <= n,
            chunk_size == chunk_size_of(precision),
            chunk_size == 4 || chunk_size == 8,
            result@.len() + packed_words(all.skip(start as int), chunk_size as nat).len() == packed_words(
                all,
                chunk_size as nat,
            ).len(),
            forall|k: int| 0 <= k < result@.len() ==> result@[k] as nat == #[trigger] packed_words(all, chunk_size as nat)[k],
            forall|k: int|
                0 <= k < packed_words(all.skip(start as int), chunk_size as nat).len() ==> #[trigger] packed_words(
                    all.skip(start as int),
                    chunk_size as nat,
                )[k] == packed_words(all, chunk_size as nat)[result@.len() + k],
        decreases n - start,
    {
        let ghost rest = all.skip(start as int);
        let end = if n - start <= chunk_size { n } else { start + chunk_size };
        let word = pack_chunk(&bytes, start, end, chunk_size);
        proof {
            if n - start <= chunk_size {
                assert(rest =~= all.subrange(start as int, end as int));
                assert(all.skip(end as int).len() == 0);
            } else {
                assert(rest.take(chunk_size as int) =~= all.subrange(start as int, end as int));
                assert(rest.skip(chunk_size as int) =~= all.skip(end as int));
            }
            assert(packed_words(rest, chunk_size as nat)[0] == word as nat);
            assert forall|k: int|
                0 <= k < packed_words(all.skip(end as int), chunk_size as nat).len() implies #[trigger] packed_words(
                all.skip(end as int),
                chunk_size as nat,
            )[k] == packed_words(all, chunk_size as nat)[result@.len() + 1 + k] by {
                assert(packed_words(rest, chunk_size as nat)[k + 1] == packed_words(all.skip(end as int), chunk_size as nat)[k]);
            }
        }
        result.push(word);
        start = end;
    }
    result
}

/// A packed chunk fits in a word of `chunk_size` bytes.
proof fn lemma_packed_word_fits(chunk: Seq<u8>, chunk_size: nat)
    requires
        chunk.len() <= chunk_size,
    ensures
        packed_word(chunk, chunk_size) < pow256(chunk_size),
{
    lemma_le_value_bound(chunk);
    lemma_pow256_adds(chunk.len(), (chunk_size - chunk.len()) as nat);
    lemma_pow256_positive((chunk_size - chunk.len()) as nat);
    let a = le_value(chunk);
    let p = pow256(chunk.len());
    let s = pow256((chunk_size - chunk.len()) as nat);
    assert(a * s < p * s) by (nonlinear_arith)
        requires
            a < p,
            s >= 1,
    ;
}

/// Packing cuts the bytes into as many words as it takes chunks of
/// `chunk_size` bytes to hold them, and every word fits in `chunk_size`
/// bytes: a 32-bit precision word fits in 32 bits.
pub proof fn law_packed_words_fit(bytes: Seq<u8>, chunk_size: nat)
    requires
        chunk_size > 0,
    ensures
        packed_words(bytes, chunk_size).len() == (bytes.len() + chunk_size - 1) / (chunk_size as int),
        forall|k: int|
            0 <= k < packed_words(bytes, chunk_size).len() ==> #[trigger] packed_words(bytes, chunk_size)[k] < pow256(
                chunk_size,
            ),
    decreases bytes.len(),
{
    let words = packed_words(bytes, chunk_size);
    if bytes.len() == 0 {
        assert((chunk_size - 1) / (chunk_size as int) == 0) by (nonlinear_arith)
            requires
                chunk_size > 0,
        ;
    } else if bytes.len() <= chunk_size {
        lemma_packed_word_fits(bytes, chunk_size);
        let n = bytes.len();
        assert((n + chunk_size - 1) / (chunk_size as int) == 1) by (nonlinear_arith)
            requires
                0 < n <= chunk_size,
        ;
    } else {
        let rest = bytes.skip(chunk_size as int);
        law_packed_words_fit(rest, chunk_size);
        lemma_packed_word_fits(bytes.take(chunk_size as int), chunk_size);
        let n = bytes.len();
        assert((n + chunk_size - 1) / (chunk_size as int) == (n - chunk_size + chunk_size - 1) / (chunk_size as int)
            + 1) by (nonlinear_arith)
            requires
                n > chunk_size > 0,
        ;
        assert forall|k: int| 0 <= k < words.len() implies #[trigger] words[k] < pow256(chunk_size) by {
            if k > 0 {
                assert(words[k] == packed_words(rest, chunk_size)[k - 1]);
            }
        }
    }
}

} // verus!
