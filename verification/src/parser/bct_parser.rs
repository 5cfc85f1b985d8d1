//! The `.bct` text form of a program: one token per line (or per custom
//! delimiter). A token names an operation (an `OP` instruction with that
//! operation), a number (a `VALUE` instruction with that value) or an
//! instruction. Empty tokens and tokens starting with `#` are skipped; any
//! other token is an error. The tables are stored last token first.
use vstd::prelude::*;
use crate::text::{str_chars, split_chars, split_pieces, trim_chars, trimmed, chars_to_string};
use crate::ops::{BarracudaOperators, spec_operator_named, lemma_no_operation_named, lemma_operation_name_found};
use crate::instructions::{BarracudaInstructions, spec_instruction_named, lemma_instruction_name_starts_with_letter};
use crate::program_code::{ProgramCode, can_pad, padded, null_operation, instruction_text};

verus! {

/// Why a `.bct` text could not be read.
#[derive(Debug)]
pub enum BctParseError {
    /// A token that is no operation, number, instruction, blank or comment.
    UnknownToken(String),
}

/// What a trimmed token stands for, given the number it reads as (if any).
#[derive(Debug, Clone, Copy, PartialEq, Eq, Structural)]
pub enum TokenMeaning {
    Operation(BarracudaOperators),
    Value(u64),
    Instruction(BarracudaInstructions),
    Ignored,
    Unknown,
}

/// Operation names come first, then numbers, then instruction names; blank
/// tokens and `#` comments are ignored.
pub open spec fn token_meaning(token: Seq<char>, value: Option<u64>) -> TokenMeaning {
    match spec_operator_named(token) {
        Ok(op) => TokenMeaning::Operation(op),
        Err(_) => match value {
            Some(v) => TokenMeaning::Value(v),
            None => match spec_instruction_named(token) {
                Ok(i) => TokenMeaning::Instruction(i),
                Err(_) => if token.len() == 0 || token[0] == '#' {
                    TokenMeaning::Ignored
                } else {
                    TokenMeaning::Unknown
                },
            },
        },
    }
}

/// The value, operation and instruction lists read from the first `n`
/// tokens, in reading order, or the first unknown token.
pub open spec fn collect_tokens(tokens: Seq<Seq<char>>, values: Seq<Option<u64>>, n: nat) -> Result<
    (Seq<u64>, Seq<BarracudaOperators>, Seq<BarracudaInstructions>),
    Seq<char>,
>
    decreases n,
{
    if n == 0 {
        Ok((Seq::empty(), Seq::empty(), Seq::empty()))
    } else {
        match collect_tokens(tokens, values, (n - 1) as nat) {
            Err(t) => Err(t),
            Ok((vs, os, is)) => match token_meaning(tokens[n - 1], values[n - 1]) {
                TokenMeaning::Operation(op) => Ok((vs, os.push(op), is.push(BarracudaInstructions::OP))),
                TokenMeaning::Value(v) => Ok((vs.push(v), os, is.push(BarracudaInstructions::VALUE))),
                TokenMeaning::Instruction(i) => Ok((vs, os, is.push(i))),
                TokenMeaning::Ignored => Ok((vs, os, is)),
                TokenMeaning::Unknown => Err(tokens[n - 1]),
            },
        }
    }
}

/// Once a token is unknown, reading further tokens keeps that error.
proof fn lemma_collect_error_stays(tokens: Seq<Seq<char>>, values: Seq<Option<u64>>, i: nat, j: nat)
    requires
        i <= j,
        collect_tokens(tokens, values, i) is Err,
    ensures
        collect_tokens(tokens, values, j) == collect_tokens(tokens, values, i),
    decreases j - i,
{
    if i < j {
        lemma_collect_error_stays(tokens, values, i, (j - 1) as nat);
    }
}

/// Whether the lists read from the tokens can make program code: there is
/// a value for every `VALUE` and an operation for every `OP` instruction.
pub open spec fn tables_fit(tables: (Seq<u64>, Seq<BarracudaOperators>, Seq<BarracudaInstructions>)) -> bool {
    &&& can_pad(tables.2.reverse(), BarracudaInstructions::VALUE, tables.0.reverse())
    &&& can_pad(tables.2.reverse(), BarracudaInstructions::OP, tables.1.reverse())
}

/// A copy of a list in reverse order.
fn reversed<T: Copy>(v: &Vec<T>) -> (r: Vec<T>)
    ensures
        r@ == v@.reverse(),
{
    let mut out: Vec<T> = Vec::new();
    let n = v.len();
    let mut i: usize = n;
    while i > 0
        invariant
            n == v@.len(),
            i <= n,
            out@.len() == n - i,
            forall|k: int| 0 <= k < n - i ==> out@[k] == v@[n - 1 - k],
        decreases i,
    {
        out.push(v[i - 1]);
        i = i - 1;
    }
    assert(out@ =~= v@.reverse());
    out
}

/// The reader of `.bct` text.
#[derive(Debug)]
pub struct BarracudaCodeTextParser {
    delimiter: String,
}

impl BarracudaCodeTextParser {
    /// The text that separates tokens.
    pub closed spec fn spec_delimiter(&self) -> Seq<char> {
        self.delimiter@
    }

    /// A reader whose tokens are separated by line feeds.
    pub fn new() -> (r: Self)
        ensures
            r.spec_delimiter() == seq!['\n'],
    {
        let mut delimiter = String::new();
        crate::text::string_push(&mut delimiter, '\n');
        Self { delimiter }
    }

    /// The same reader with another delimiter.
    pub fn using_delimiter(self, delimiter: String) -> (r: Self)
        ensures
            r.spec_delimiter() == delimiter@,
    {
        let mut s = self;
        s.delimiter = delimiter;
        s
    }

    /// The tokens of a text: the pieces between delimiters, each trimmed of
    /// white space.
    pub fn tokenize(&self, data: &str) -> (r: Vec<String>)
        ensures
            r@.map_values(|t: String| t@) == split_pieces(data@, self.spec_delimiter()).map_values(
                |p: Seq<char>| trimmed(p),
            ),
    {
        let chars = str_chars(data);
        let delim = str_chars(self.delimiter.as_str());
        let pieces = split_chars(&chars, &delim);
        let ghost expected = split_pieces(data@, self.spec_delimiter());
        assert(pieces@.map_values(|p: Vec<char>| p@) == expected);
        let mut out: Vec<String> = Vec::new();
        let mut i: usize = 0;
        while i < pieces.len()
            invariant
                i <= pieces@.len(),
                pieces@.len() == expected.len(),
                forall|k: int| 0 <= k < pieces@.len() ==> (#[trigger] pieces@[k])@ == expected[k],
                out@.len() == i,
                forall|k: int| 0 <= k < i ==> (#[trigger] out@[k])@ == trimmed(expected[k]),
            decreases pieces@.len() - i,
        {
            proof {
                assert(pieces@.map_values(|p: Vec<char>| p@)[i as int] == expected[i as int]);
            }
            let token = trim_chars(&pieces[i]);
            out.push(chars_to_string(&token));
            i = i + 1;
        }
        proof {
            assert forall|k: int| 0 <= k < pieces@.len() implies (#[trigger] pieces@[k])@ == expected[k] by {
                assert(pieces@.map_values(|p: Vec<char>| p@)[k] == expected[k]);
            }
        }
        assert(out@.map_values(|t: String| t@) =~= expected.map_values(|p: Seq<char>| trimmed(p)));
        out
    }

    /// The operation a token names, if any.
    pub fn parse_token_as_operation(token: &str) -> (r: Option<BarracudaOperators>)
        ensures
            r == (match spec_operator_named(token@) {
                Ok(op) => Some(op),
                Err(_) => None,
            }),
    {
        match BarracudaOperators::from_str(token) {
            Ok(operation) => Some(operation),
            Err(_) => None,
        }
    }

    /// The instruction a token names, if any.
    pub fn parse_token_as_instruction(token: &str) -> (r: Option<BarracudaInstructions>)
        ensures
            r == (match spec_instruction_named(token@) {
                Ok(i) => Some(i),
                Err(_) => None,
            }),
    {
        match BarracudaInstructions::from_str(token) {
            Ok(instruction) => Some(instruction),
            Err(_) => None,
        }
    }

    /// What a token stands for, given the number it reads as.
    pub fn classify_token(token: &str, value: Option<u64>) -> (r: TokenMeaning)
        ensures
            r == token_meaning(token@, value),
    {
        if let Some(operation) = Self::parse_token_as_operation(token) {
            TokenMeaning::Operation(operation)
        } else if let Some(v) = value {
            TokenMeaning::Value(v)
        } else if let Some(instruction) = Self::parse_token_as_instruction(token) {
            TokenMeaning::Instruction(instruction)
        } else {
            let chars = str_chars(token);
            if chars.len() == 0 || chars[0] == '#' {
                TokenMeaning::Ignored
            } else {
                TokenMeaning::Unknown
            }
        }
    }

    /// Reads the value, operation and instruction lists from trimmed tokens
    /// and, for each token, the bit pattern of the number it reads as (`None`
    /// when it is no number). The lists are given last token first.
    pub fn read_tables(tokens: &Vec<String>, values: &Vec<Option<u64>>) -> (r: Result<
        (Vec<u64>, Vec<BarracudaOperators>, Vec<BarracudaInstructions>),
        BctParseError,
    >)
        requires
            tokens@.len() == values@.len(),
        ensures
            match collect_tokens(tokens@.map_values(|t: String| t@), values@, tokens@.len()) {
                Err(t) => r matches Err(BctParseError::UnknownToken(u)) && u@ == t,
                Ok((vs, os, is)) => r matches Ok(tables) && {
                    &&& tables.0@ == vs.reverse()
                    &&& tables.1@ == os.reverse()
                    &&& tables.2@ == is.reverse()
                },
            },
    {
        let ghost tv = tokens@.map_values(|t: String| t@);
        let mut vs: Vec<u64> = Vec::new();
        let mut os: Vec<BarracudaOperators> = Vec::new();
        let mut is: Vec<BarracudaInstructions> = Vec::new();
        let n = tokens.len();
        let mut i: usize = 0;
        while i < n
            invariant
                n == tokens@.len(),
                n == values@.len(),
                tv == tokens@.map_values(|t: String| t@),
                i <= n,
                collect_tokens(tv, values@, i as nat) == Ok::<_, Seq<char>>((vs@, os@, is@)),
            decreases n - i,
        {
            assert(tv[i as int] == tokens@[i as int]@);
            match Self::classify_token(tokens[i].as_str(), values[i]) {
                TokenMeaning::Operation(op) => {
                    is.push(BarracudaInstructions::OP);
                    os.push(op);
                },
                TokenMeaning::Value(v) => {
                    is.push(BarracudaInstructions::VALUE);
                    vs.push(v);
                },
                TokenMeaning::Instruction(instruction) => {
                    is.push(instruction);
                },
                TokenMeaning::Ignored => {},
                TokenMeaning::Unknown => {
                    proof {
                        lemma_collect_error_stays(tv, values@, (i + 1) as nat, n as nat);
                    }
                    return Err(BctParseError::UnknownToken(tokens[i].clone()));
                },
            }
            i = i + 1;
        }
        Ok((reversed(&vs), reversed(&os), reversed(&is)))
    }

    /// Builds program code from trimmed tokens and their number readings
    /// (see `read_tables`), the lists padded to the instructions.
    pub fn assemble(tokens: &Vec<String>, values: &Vec<Option<u64>>) -> (r: Result<ProgramCode, BctParseError>)
        requires
            tokens@.len() == values@.len(),
            collect_tokens(tokens@.map_values(|t: String| t@), values@, tokens@.len()) matches Ok(tables) ==> tables_fit(
                tables,
            ),
        ensures
            match collect_tokens(tokens@.map_values(|t: String| t@), values@, tokens@.len()) {
                Err(t) => r matches Err(BctParseError::UnknownToken(u)) && u@ == t,
                Ok((vs, os, is)) => r matches Ok(p) && {
                    &&& p.values@ == padded(is.reverse(), BarracudaInstructions::VALUE, vs.reverse(), 0u64)
                    &&& p.operations@ == padded(is.reverse(), BarracudaInstructions::OP, os.reverse(), null_operation())
                    &&& p.instructions@ == is.reverse()
                    &&& p.max_stack_size == 0
                },
            },
    {
        match Self::read_tables(tokens, values) {
            Ok((vs, os, is)) => Ok(ProgramCode::new(vs, os, is)),
            Err(e) => Err(e),
        }
    }
}

/// Blank tokens and tokens starting with `#` are skipped when they do not
/// read as a number: no operation or instruction has such a name.
pub proof fn law_blank_and_comment_tokens_ignored(token: Seq<char>)
    requires
        token.len() == 0 || token[0] == '#',
    ensures
        token_meaning(token, None) == TokenMeaning::Ignored,
{
    lemma_no_operation_named(token, 0);
    lemma_instruction_name_starts_with_letter(BarracudaInstructions::OP);
    lemma_instruction_name_starts_with_letter(BarracudaInstructions::VALUE);
    lemma_instruction_name_starts_with_letter(BarracudaInstructions::GOTO);
    lemma_instruction_name_starts_with_letter(BarracudaInstructions::GOTO_IF);
    lemma_instruction_name_starts_with_letter(BarracudaInstructions::LOOP_ENTRY);
    lemma_instruction_name_starts_with_letter(BarracudaInstructions::LOOP_END);
}

/// Skipped tokens leave the tables as they are: reading a text with blank
/// or comment tokens added gives the same lists as reading it without them.
pub proof fn law_ignored_tokens_change_nothing(tokens: Seq<Seq<char>>, values: Seq<Option<u64>>, n: nat)
    requires
        n < tokens.len(),
        n < values.len(),
        token_meaning(tokens[n as int], values[n as int]) == TokenMeaning::Ignored,
    ensures
        collect_tokens(tokens, values, n + 1) == collect_tokens(tokens, values, n),
{
}

/// The first of the first `n` tokens that is unknown, if any.
pub open spec fn first_unknown(tokens: Seq<Seq<char>>, values: Seq<Option<u64>>, n: nat) -> Option<int>
    decreases n,
{
    if n == 0 {
        None
    } else {
        match first_unknown(tokens, values, (n - 1) as nat) {
            Some(i) => Some(i),
            None => if token_meaning(tokens[n - 1], values[n - 1]) == TokenMeaning::Unknown {
                Some(n - 1)
            } else {
                None
            },
        }
    }
}

/// Reading fails exactly when some token is unknown, and then it names the
/// first unknown token.
pub proof fn law_error_iff_unknown_token(tokens: Seq<Seq<char>>, values: Seq<Option<u64>>, n: nat)
    requires
        n <= tokens.len(),
        n <= values.len(),
    ensures
        collect_tokens(tokens, values, n) is Err <==> exists|i: int|
            0 <= i < n && token_meaning(#[trigger] tokens[i], values[i]) == TokenMeaning::Unknown,
        match first_unknown(tokens, values, n) {
            Some(i) => 0 <= i < n && token_meaning(tokens[i], values[i]) == TokenMeaning::Unknown
                && collect_tokens(tokens, values, n) == Err::<(Seq<u64>, Seq<BarracudaOperators>, Seq<BarracudaInstructions>), Seq<char>>(tokens[i])
                && forall|j: int| 0 <= j < i ==> token_meaning(#[trigger] tokens[j], values[j]) != TokenMeaning::Unknown,
            None => collect_tokens(tokens, values, n) is Ok,
        },
    decreases n,
{
    if n > 0 {
        law_error_iff_unknown_token(tokens, values, (n - 1) as nat);
        if first_unknown(tokens, values, (n - 1) as nat) is None && token_meaning(tokens[n - 1], values[n - 1])
            == TokenMeaning::Unknown {
            assert(forall|j: int| 0 <= j < n - 1 ==> token_meaning(#[trigger] tokens[j], values[j]) != TokenMeaning::Unknown);
        }
        if collect_tokens(tokens, values, n) is Ok {
            assert forall|i: int| 0 <= i < n implies token_meaning(#[trigger] tokens[i], values[i]) != TokenMeaning::Unknown by {
                if i == n - 1 {
                } else {
                    assert(collect_tokens(tokens, values, (n - 1) as nat) is Ok);
                }
            }
        }
    }
}

/// The tokens that are not skipped, each with what it stands for, in order.
pub open spec fn kept_tokens(tokens: Seq<Seq<char>>, values: Seq<Option<u64>>, n: nat) -> Seq<(Seq<char>, TokenMeaning)>
    decreases n,
{
    if n == 0 {
        Seq::empty()
    } else {
        let before = kept_tokens(tokens, values, (n - 1) as nat);
        let meaning = token_meaning(tokens[n - 1], values[n - 1]);
        if meaning == TokenMeaning::Ignored {
            before
        } else {
            before.push((tokens[n - 1], meaning))
        }
    }
}

/// The lists read from tokens that are not skipped.
pub open spec fn collect_kept(kept: Seq<(Seq<char>, TokenMeaning)>) -> Result<
    (Seq<u64>, Seq<BarracudaOperators>, Seq<BarracudaInstructions>),
    Seq<char>,
>
    decreases kept.len(),
{
    if kept.len() == 0 {
        Ok((Seq::empty(), Seq::empty(), Seq::empty()))
    } else {
        match collect_kept(kept.drop_last()) {
            Err(t) => Err(t),
            Ok((vs, os, is)) => match kept.last().1 {
                TokenMeaning::Operation(op) => Ok((vs, os.push(op), is.push(BarracudaInstructions::OP))),
                TokenMeaning::Value(v) => Ok((vs.push(v), os, is.push(BarracudaInstructions::VALUE))),
                TokenMeaning::Instruction(i) => Ok((vs, os, is.push(i))),
                TokenMeaning::Ignored => Ok((vs, os, is)),
                TokenMeaning::Unknown => Err(kept.last().0),
            },
        }
    }
}

/// Reading depends only on the tokens that are not skipped.
proof fn lemma_collect_is_collect_kept(tokens: Seq<Seq<char>>, values: Seq<Option<u64>>, n: nat)
    ensures
        collect_tokens(tokens, values, n) == collect_kept(kept_tokens(tokens, values, n)),
    decreases n,
{
    if n > 0 {
        lemma_collect_is_collect_kept(tokens, values, (n - 1) as nat);
        let before = kept_tokens(tokens, values, (n - 1) as nat);
        let meaning = token_meaning(tokens[n - 1], values[n - 1]);
        if meaning != TokenMeaning::Ignored {
            assert(before.push((tokens[n - 1], meaning)).drop_last() =~= before);
        }
    }
}

/// Blank tokens and comments change nothing: two token lists whose tokens
/// that are not skipped are the same, with the same meanings, read the same.
pub proof fn law_same_kept_tokens_read_the_same(
    tokens1: Seq<Seq<char>>,
    values1: Seq<Option<u64>>,
    n1: nat,
    tokens2: Seq<Seq<char>>,
    values2: Seq<Option<u64>>,
    n2: nat,
)
    requires
        kept_tokens(tokens1, values1, n1) == kept_tokens(tokens2, values2, n2),
    ensures
        collect_tokens(tokens1, values1, n1) == collect_tokens(tokens2, values2, n2),
{
    lemma_collect_is_collect_kept(tokens1, values1, n1);
    lemma_collect_is_collect_kept(tokens2, values2, n2);
}

/// A token that is blank or a comment.
pub open spec fn is_filler(token: Seq<char>) -> bool {
    token.len() == 0 || token[0] == '#'
}

/// Whether the first `n2` lines of `lines2` are the first `n1` lines of
/// `lines1`, each perhaps padded with white space, with blank and comment
/// lines put anywhere among them.
pub open spec fn lines_match(lines2: Seq<Seq<char>>, n2: nat, lines1: Seq<Seq<char>>, n1: nat) -> bool
    decreases n2,
{
    if n2 == 0 {
        n1 == 0
    } else {
        ||| (is_filler(trimmed(lines2[n2 - 1])) && lines_match(lines2, (n2 - 1) as nat, lines1, n1))
        ||| (n1 > 0 && trimmed(lines2[n2 - 1]) == trimmed(lines1[n1 - 1]) && lines_match(
            lines2,
            (n2 - 1) as nat,
            lines1,
            (n1 - 1) as nat,
        ))
    }
}

/// The tokens of some lines: each line trimmed of white space.
pub open spec fn line_tokens(lines: Seq<Seq<char>>) -> Seq<Seq<char>> {
    lines.map_values(|l: Seq<char>| trimmed(l))
}

/// The number readings of tokens.
pub open spec fn token_values(tokens: Seq<Seq<char>>, read: spec_fn(Seq<char>) -> Option<u64>) -> Seq<Option<u64>> {
    tokens.map_values(|t: Seq<char>| read(t))
}

/// Matching lines keep the same tokens.
proof fn lemma_lines_match_kept(
    lines2: Seq<Seq<char>>,
    n2: nat,
    lines1: Seq<Seq<char>>,
    n1: nat,
    read: spec_fn(Seq<char>) -> Option<u64>,
)
    requires
        n2 <= lines2.len(),
        n1 <= lines1.len(),
        lines_match(lines2, n2, lines1, n1),
        forall|t: Seq<char>| is_filler(t) ==> (#[trigger] read(t)) is None,
    ensures
        kept_tokens(line_tokens(lines2), token_values(line_tokens(lines2), read), n2) == kept_tokens(
            line_tokens(lines1),
            token_values(line_tokens(lines1), read),
            n1,
        ),
    decreases n2,
{
    let t2 = line_tokens(lines2);
    let v2 = token_values(t2, read);
    let t1 = line_tokens(lines1);
    let v1 = token_values(t1, read);
    if n2 > 0 {
        let last = trimmed(lines2[n2 - 1]);
        assert(t2[n2 - 1] == last);
        assert(v2[n2 - 1] == read(last));
        if is_filler(last) && lines_match(lines2, (n2 - 1) as nat, lines1, n1) {
            lemma_lines_match_kept(lines2, (n2 - 1) as nat, lines1, n1, read);
            law_blank_and_comment_tokens_ignored(last);
        } else {
            lemma_lines_match_kept(lines2, (n2 - 1) as nat, lines1, (n1 - 1) as nat, read);
            assert(t1[n1 - 1] == trimmed(lines1[n1 - 1]));
            assert(v1[n1 - 1] == read(t1[n1 - 1]));
        }
    }
}

/// Padding the lines of a text with white space, and adding blank lines
/// and `#` comment lines, leaves what the text reads as unchanged, when
/// blank and comment tokens read as no number.
pub proof fn law_padding_and_comments_read_the_same(
    lines2: Seq<Seq<char>>,
    lines1: Seq<Seq<char>>,
    read: spec_fn(Seq<char>) -> Option<u64>,
)
    requires
        lines_match(lines2, lines2.len(), lines1, lines1.len()),
        forall|t: Seq<char>| is_filler(t) ==> (#[trigger] read(t)) is None,
    ensures
        collect_tokens(line_tokens(lines2), token_values(line_tokens(lines2), read), lines2.len()) == collect_tokens(
            line_tokens(lines1),
            token_values(line_tokens(lines1), read),
            lines1.len(),
        ),
{
    lemma_lines_match_kept(lines2, lines2.len(), lines1, lines1.len(), read);
    law_same_kept_tokens_read_the_same(
        line_tokens(lines2),
        token_values(line_tokens(lines2), read),
        lines2.len(),
        line_tokens(lines1),
        token_values(line_tokens(lines1), read),
        lines1.len(),
    );
}

/// Reading a text (cut at `delimiter` into tokens, each trimmed, as
/// `tokenize` gives them) fails exactly when one of its tokens is unknown:
/// not blank, not a comment, and neither an operation, a number nor an
/// instruction.
pub proof fn law_text_error_iff_unknown_token(
    data: Seq<char>,
    delimiter: Seq<char>,
    read: spec_fn(Seq<char>) -> Option<u64>,
)
    ensures
        ({
            let tokens = line_tokens(split_pieces(data, delimiter));
            let values = token_values(tokens, read);
            collect_tokens(tokens, values, tokens.len()) is Err <==> exists|i: int|
                0 <= i < tokens.len() && token_meaning(#[trigger] tokens[i], values[i]) == TokenMeaning::Unknown
        }),
{
    let tokens = line_tokens(split_pieces(data, delimiter));
    law_error_iff_unknown_token(tokens, token_values(tokens, read), tokens.len());
}

/// Two line-feed separated texts whose lines match (the second has the
/// lines of the first, padded with white space, with blank and comment lines
/// anywhere among them) read the same.
pub proof fn law_padded_text_reads_the_same(text2: Seq<char>, text1: Seq<char>, read: spec_fn(Seq<char>) -> Option<u64>)
    requires
        lines_match(
            split_pieces(text2, seq!['\n']),
            split_pieces(text2, seq!['\n']).len(),
            split_pieces(text1, seq!['\n']),
            split_pieces(text1, seq!['\n']).len(),
        ),
        forall|t: Seq<char>| is_filler(t) ==> (#[trigger] read(t)) is None,
    ensures
        ({
            let tokens2 = line_tokens(split_pieces(text2, seq!['\n']));
            let tokens1 = line_tokens(split_pieces(text1, seq!['\n']));
            collect_tokens(tokens2, token_values(tokens2, read), tokens2.len()) == collect_tokens(
                tokens1,
                token_values(tokens1, read),
                tokens1.len(),
            )
        }),
{
    law_padding_and_comments_read_the_same(split_pieces(text2, seq!['\n']), split_pieces(text1, seq!['\n']), read);
}


/// The line that written program code gives an `OP` instruction reads back
/// as an operation, one with the name of the instruction's operation: writing
/// program code as text keeps its operations.
pub proof fn law_written_operation_reads_back(
    operation: BarracudaOperators,
    value_text: Seq<char>,
    value: Option<u64>,
)
    ensures
        token_meaning(instruction_text(BarracudaInstructions::OP, operation, value_text), value) matches TokenMeaning::Operation(o)
            && o.spec_name() == operation.spec_name(),
{
    let BarracudaOperators::FIXED(f) = operation;
    lemma_operation_name_found(f, 0);
}


/// The line written for an instruction other than `OP` is the value's text
/// for `VALUE`, and otherwise the instruction's name, which reads back as
/// that instruction.
pub proof fn law_written_instruction_reads_back(
    instruction: BarracudaInstructions,
    operation: BarracudaOperators,
    value_text: Seq<char>,
)
    ensures
        instruction == BarracudaInstructions::VALUE ==> instruction_text(instruction, operation, value_text) == value_text,
        instruction != BarracudaInstructions::VALUE && instruction != BarracudaInstructions::OP ==> spec_instruction_named(
            instruction_text(instruction, operation, value_text),
        ) == Ok::<BarracudaInstructions, ()>(instruction),
{
    crate::instructions::law_instruction_name_roundtrip(instruction);
}

} // verus!
