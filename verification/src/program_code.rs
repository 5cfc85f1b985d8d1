//! The tables that make up a Barracuda program: values, operations and
//! instructions, kept aligned so that one program counter indexes all three.
use vstd::prelude::*;
use std::collections::HashMap;
use crate::instructions::BarracudaInstructions;
use crate::ops::{BarracudaOperators, FixedBarracudaOperators};
use crate::text::{decimal, push_decimal, str_chars, chars_to_string};

verus! {

broadcast use vstd::std_specs::hash::group_hash_axioms;

/// Number of entries of `instrs` before index `i` that equal `target`.
pub open spec fn count_before<I>(instrs: Seq<I>, target: I, i: int) -> nat
    decreases i,
{
    if i <= 0 {
        0
    } else {
        count_before(instrs, target, i - 1) + if instrs[i - 1] == target { 1nat } else { 0nat }
    }
}

/// The list aligned to `instrs`: at every index holding `target` the next
/// unused element of `list`, and `null` everywhere else.
pub open spec fn aligned_list<I, T>(
    instrs: Seq<I>,
    target: I,
    list: Seq<T>,
    null: T,
) -> Seq<T> {
    Seq::new(instrs.len(), |i: int| if instrs[i] == target { list[count_before(instrs, target, i) as int] } else { null })
}

/// What padding gives back: the list itself when it already has the length
/// of the instruction list, the aligned list otherwise.
pub open spec fn padded<I, T>(
    instrs: Seq<I>,
    target: I,
    list: Seq<T>,
    null: T,
) -> Seq<T> {
    if instrs.len() == list.len() {
        list
    } else {
        aligned_list(instrs, target, list, null)
    }
}

/// Whether `list` can be padded against `instrs`: either it already has the
/// right length, or it has an element for every `target` instruction.
pub open spec fn can_pad<I, T>(instrs: Seq<I>, target: I, list: Seq<T>) -> bool {
    instrs.len() == list.len() || count_before(instrs, target, instrs.len() as int) <= list.len()
}

/// `count_before` never decreases along the list.
pub proof fn lemma_count_before_monotone<I>(instrs: Seq<I>, target: I, i: int, j: int)
    requires
        0 <= i <= j,
    ensures
        count_before(instrs, target, i) <= count_before(instrs, target, j),
    decreases j - i,
{
    if i < j {
        lemma_count_before_monotone(instrs, target, i, j - 1);
    }
}

/// ProgramCodeDecorations holds the non-functional data of a program: the
/// comments attached to instruction lines.
#[derive(Debug)]
pub struct ProgramCodeDecorations {
    line_comments: HashMap<usize, Vec<String>>,
}

impl ProgramCodeDecorations {
    /// The comments of every line, line by line, each comment as characters.
    pub closed spec fn comments(&self) -> Map<usize, Seq<Seq<char>>> {
        Map::new(
            |line: usize| self.line_comments@.contains_key(line),
            |line: usize| self.line_comments@[line]@.map_values(|c: String| c@),
        )
    }

    /// Decorations without any comment.
    pub fn new() -> (r: Self)
        ensures
            r.comments() == Map::<usize, Seq<Seq<char>>>::empty(),
    {
        let r = ProgramCodeDecorations { line_comments: HashMap::new() };
        assert(r.comments() =~= Map::<usize, Seq<Seq<char>>>::empty());
        r
    }

    /// Adds a comment to an instruction line; a line may hold several comments.
    pub fn add_comment(&mut self, line: usize, comment: String)
        ensures
            final(self).comments() == old(self).comments().insert(
                line,
                if old(self).comments().contains_key(line) {
                    old(self).comments()[line].push(comment@)
                } else {
                    seq![comment@]
                },
            ),
    {
        let ghost expected = if old(self).comments().contains_key(line) {
            old(self).comments()[line].push(comment@)
        } else {
            seq![comment@]
        };
        let entry = self.line_comments.remove(&line);
        let updated = match entry {
            Some(mut existing) => {
                let ghost before = existing@;
                existing.push(comment);
                assert(existing@.map_values(|c: String| c@) =~= before.map_values(|c: String| c@).push(comment@));
                existing
            },
            None => {
                let v = vec![comment];
                assert(v@.map_values(|c: String| c@) =~= seq![comment@]);
                v
            },
        };
        self.line_comments.insert(line, updated);
        assert(self.comments() =~= old(self).comments().insert(line, expected));
    }

    /// The comments on a line, if there are any.
    pub fn get_comments(&self, line: usize) -> (r: Option<&Vec<String>>)
        ensures
            r is Some <==> self.comments().contains_key(line),
            r matches Some(v) ==> v@.map_values(|c: String| c@) == self.comments()[line],
    {
        self.line_comments.get(&line)
    }
}

/// ProgramCode describes the tables required to run Barracuda code in the VM.
/// Each value is held as the 64-bit pattern of the floating-point number that
/// the VM loads.
#[derive(Debug)]
pub struct ProgramCode {
    /// Values loaded by the instruction VALUE, padded to align with the instructions.
    pub values: Vec<u64>,
    /// Operations run by the instruction OP, padded to align with the instructions.
    pub operations: Vec<BarracudaOperators>,
    /// Instructions; the VM executes them from the end of the list to the start.
    pub instructions: Vec<BarracudaInstructions>,
    /// Estimate of the largest stack the program needs.
    pub max_stack_size: usize,
    /// Sizes of the user space: index 0 for mutable, index 1 for constant data.
    pub user_space_size: Vec<u64>,
    /// Initial mutable user-space values.
    pub mutable_user_space: Vec<u64>,
    /// Initial constant user-space values.
    pub constant_user_space: Vec<u64>,
    /// Whether the textual form includes the comments.
    pub render_decorations: bool,
    /// Comments attached to instruction lines.
    pub decorations: ProgramCodeDecorations,
}

/// The operation used to pad the operation table.
pub open spec fn null_operation() -> BarracudaOperators {
    BarracudaOperators::FIXED(FixedBarracudaOperators::NULL)
}

impl ProgramCode {
    /// The three tables have one entry per instruction.
    pub open spec fn aligned(&self) -> bool {
        &&& self.values@.len() == self.instructions@.len()
        &&& self.operations@.len() == self.instructions@.len()
    }

    /// Whether the textual form includes the comments.
    pub open spec fn renders_decorations(&self) -> bool {
        self.render_decorations
    }

    /// The comments attached to instruction lines.
    pub open spec fn comments(&self) -> Map<usize, Seq<Seq<char>>> {
        self.decorations.comments()
    }

    /// An empty program, the starting point of the builder functions.
    pub fn default() -> (r: ProgramCode)
        ensures
            r.values@ == Seq::<u64>::empty(),
            r.operations@ == Seq::<BarracudaOperators>::empty(),
            r.instructions@ == Seq::<BarracudaInstructions>::empty(),
            r.max_stack_size == 0,
            r.user_space_size@ == seq![0u64, 0u64],
            r.mutable_user_space@ == Seq::<u64>::empty(),
            r.constant_user_space@ == Seq::<u64>::empty(),
            !r.renders_decorations(),
            r.comments() == Map::<usize, Seq<Seq<char>>>::empty(),
    {
        ProgramCode {
            values: Vec::new(),
            operations: Vec::new(),
            instructions: Vec::new(),
            max_stack_size: 0,
            user_space_size: vec![0, 0],
            mutable_user_space: Vec::new(),
            constant_user_space: Vec::new(),
            render_decorations: false,
            decorations: ProgramCodeDecorations::new(),
        }
    }

    /// Creates program code whose value and operation lists are padded to the
    /// size of the instruction list.
    pub fn new(values: Vec<u64>, operations: Vec<BarracudaOperators>, instructions: Vec<BarracudaInstructions>) -> (r: ProgramCode)
        requires
            can_pad(instructions@, BarracudaInstructions::VALUE, values@),
            can_pad(instructions@, BarracudaInstructions::OP, operations@),
        ensures
            r.values@ == padded(instructions@, BarracudaInstructions::VALUE, values@, 0u64),
            r.operations@ == padded(instructions@, BarracudaInstructions::OP, operations@, null_operation()),
            r.instructions@ == instructions@,
            r.aligned(),
            r.max_stack_size == 0,
            r.user_space_size@ == seq![0u64, 0u64],
            r.mutable_user_space@ == Seq::<u64>::empty(),
            r.constant_user_space@ == Seq::<u64>::empty(),
            !r.renders_decorations(),
            r.comments() == Map::<usize, Seq<Seq<char>>>::empty(),
    {
        let padded_values = Self::pad_list_to_size_of_instructions(BarracudaInstructions::VALUE, &instructions, &values, 0u64);
        let padded_operations = Self::pad_list_to_size_of_instructions(
            BarracudaInstructions::OP,
            &instructions,
            &operations,
            BarracudaOperators::FIXED(FixedBarracudaOperators::NULL),
        );
        ProgramCode {
            values: padded_values,
            operations: padded_operations,
            instructions,
            max_stack_size: 0,
            user_space_size: vec![0, 0],
            mutable_user_space: Vec::new(),
            constant_user_space: Vec::new(),
            render_decorations: false,
            decorations: ProgramCodeDecorations::new(),
        }
    }

    /// The same program, whose textual form includes the comments.
    pub fn decorated(self) -> (r: Self)
        ensures
            r.renders_decorations(),
            r.values@ == self.values@,
            r.operations@ == self.operations@,
            r.instructions@ == self.instructions@,
            r.max_stack_size == self.max_stack_size,
            r.comments() == self.comments(),
    {
        let mut s = self;
        s.render_decorations = true;
        s
    }

    /// Appends a VALUE instruction loading `value`, keeping the tables aligned.
    pub fn push_value(&mut self, value: u64)
        ensures
            final(self).values@ == old(self).values@.push(value),
            final(self).operations@ == old(self).operations@.push(null_operation()),
            final(self).instructions@ == old(self).instructions@.push(BarracudaInstructions::VALUE),
            final(self).max_stack_size == old(self).max_stack_size,
            final(self).user_space_size@ == old(self).user_space_size@,
            final(self).mutable_user_space@ == old(self).mutable_user_space@,
            final(self).constant_user_space@ == old(self).constant_user_space@,
            final(self).comments() == old(self).comments(),
            final(self).renders_decorations() == old(self).renders_decorations(),
    {
        self.values.push(value);
        self.operations.push(BarracudaOperators::FIXED(FixedBarracudaOperators::NULL));
        self.instructions.push(BarracudaInstructions::VALUE);
    }

    /// Appends an OP instruction running `operation`, keeping the tables aligned.
    pub fn push_operation(&mut self, operation: BarracudaOperators)
        ensures
            final(self).values@ == old(self).values@.push(0u64),
            final(self).operations@ == old(self).operations@.push(operation),
            final(self).instructions@ == old(self).instructions@.push(BarracudaInstructions::OP),
            final(self).max_stack_size == old(self).max_stack_size,
            final(self).user_space_size@ == old(self).user_space_size@,
            final(self).mutable_user_space@ == old(self).mutable_user_space@,
            final(self).constant_user_space@ == old(self).constant_user_space@,
            final(self).comments() == old(self).comments(),
            final(self).renders_decorations() == old(self).renders_decorations(),
    {
        self.values.push(0);
        self.operations.push(operation);
        self.instructions.push(BarracudaInstructions::OP);
    }

    /// Appends an instruction, keeping the tables aligned.
    pub fn push_instruction(&mut self, instruction: BarracudaInstructions)
        ensures
            final(self).values@ == old(self).values@.push(0u64),
            final(self).operations@ == old(self).operations@.push(null_operation()),
            final(self).instructions@ == old(self).instructions@.push(instruction),
            final(self).max_stack_size == old(self).max_stack_size,
            final(self).user_space_size@ == old(self).user_space_size@,
            final(self).mutable_user_space@ == old(self).mutable_user_space@,
            final(self).constant_user_space@ == old(self).constant_user_space@,
            final(self).comments() == old(self).comments(),
            final(self).renders_decorations() == old(self).renders_decorations(),
    {
        self.values.push(0);
        self.operations.push(BarracudaOperators::FIXED(FixedBarracudaOperators::NULL));
        self.instructions.push(instruction);
    }

    /// Adds a comment to the line of the next instruction.
    pub fn push_comment(&mut self, comment: String)
        ensures
            final(self).comments() == old(self).comments().insert(
                old(self).instructions@.len() as usize,
                if old(self).comments().contains_key(old(self).instructions@.len() as usize) {
                    old(self).comments()[old(self).instructions@.len() as usize].push(comment@)
                } else {
                    seq![comment@]
                },
            ),
            final(self).values@ == old(self).values@,
            final(self).operations@ == old(self).operations@,
            final(self).instructions@ == old(self).instructions@,
            final(self).max_stack_size == old(self).max_stack_size,
            final(self).user_space_size@ == old(self).user_space_size@,
            final(self).mutable_user_space@ == old(self).mutable_user_space@,
            final(self).constant_user_space@ == old(self).constant_user_space@,
            final(self).renders_decorations() == old(self).renders_decorations(),
    {
        let line = self.instructions.len();
        self.decorations.add_comment(line, comment);
    }

    /// Appends a value to the mutable user space.
    pub fn push_mutable_userspace(&mut self, value: u64)
        ensures
            final(self).mutable_user_space@ == old(self).mutable_user_space@.push(value),
            final(self).values@ == old(self).values@,
            final(self).operations@ == old(self).operations@,
            final(self).instructions@ == old(self).instructions@,
            final(self).max_stack_size == old(self).max_stack_size,
            final(self).user_space_size@ == old(self).user_space_size@,
            final(self).constant_user_space@ == old(self).constant_user_space@,
            final(self).comments() == old(self).comments(),
            final(self).renders_decorations() == old(self).renders_decorations(),
    {
        self.mutable_user_space.push(value);
    }

    /// Appends a value to the constant user space.
    pub fn push_constant_userspace(&mut self, value: u64)
        ensures
            final(self).constant_user_space@ == old(self).constant_user_space@.push(value),
            final(self).values@ == old(self).values@,
            final(self).operations@ == old(self).operations@,
            final(self).instructions@ == old(self).instructions@,
            final(self).max_stack_size == old(self).max_stack_size,
            final(self).user_space_size@ == old(self).user_space_size@,
            final(self).mutable_user_space@ == old(self).mutable_user_space@,
            final(self).comments() == old(self).comments(),
            final(self).renders_decorations() == old(self).renders_decorations(),
    {
        self.constant_user_space.push(value);
    }

    /// The comments on an instruction line, if there are any.
    pub fn comments_at(&self, line: usize) -> (r: Option<&Vec<String>>)
        ensures
            r is Some <==> self.comments().contains_key(line),
            r matches Some(v) ==> v@.map_values(|c: String| c@) == self.comments()[line],
    {
        self.decorations.get_comments(line)
    }

    /// Whether the textual form of the program includes comments.
    pub fn is_decorated(&self) -> (r: bool)
        ensures
            r == self.renders_decorations(),
    {
        self.render_decorations
    }

    /// Pads a value or operation list so that it aligns with the instruction
    /// list: each element lands where `alignment_instr` occurs, every other
    /// index holds `null_value`. A list that already has the length of the
    /// instruction list is returned as it is.
    pub fn pad_list_to_size_of_instructions<T: Copy>(
        alignment_instr: BarracudaInstructions,
        instructions: &Vec<BarracudaInstructions>,
        unaligned_list: &Vec<T>,
        null_value: T,
    ) -> (r: Vec<T>)
        requires
            can_pad(instructions@, alignment_instr, unaligned_list@),
        ensures
            r@ == padded(instructions@, alignment_instr, unaligned_list@, null_value),
            r@.len() == instructions@.len(),
    {
        if instructions.len() == unaligned_list.len() {
            let mut copy: Vec<T> = Vec::new();
            let mut k: usize = 0;
            while k < unaligned_list.len()
                invariant
                    k <= unaligned_list@.len(),
                    copy@ == unaligned_list@.take(k as int),
                decreases unaligned_list@.len() - k,
            {
                copy.push(unaligned_list[k]);
                assert(unaligned_list@.take(k as int).push(unaligned_list@[k as int]) =~= unaligned_list@.take(k + 1));
                k = k + 1;
            }
            assert(unaligned_list@.take(unaligned_list@.len() as int) =~= unaligned_list@);
            return copy;
        }
        let ghost target = aligned_list(instructions@, alignment_instr, unaligned_list@, null_value);
        let list_len = unaligned_list.len();
        let mut aligned: Vec<T> = Vec::new();
        let mut unaligned_index: usize = 0;
        let mut i: usize = 0;
        while i < instructions.len()
            invariant
                instructions@.len() != unaligned_list@.len(),
                list_len == unaligned_list@.len(),
                count_before(instructions@, alignment_instr, instructions@.len() as int) <= unaligned_list@.len(),
                i <= instructions@.len(),
                unaligned_index == count_before(instructions@, alignment_instr, i as int),
                target == aligned_list(instructions@, alignment_instr, unaligned_list@, null_value),
                aligned@ == target.take(i as int),
            decreases instructions@.len() - i,
        {
            let instr = instructions[i];
            proof {
                lemma_count_before_monotone(instructions@, alignment_instr, i + 1, instructions@.len() as int);
            }
            if instr == alignment_instr {
                assert(count_before(instructions@, alignment_instr, i + 1) == unaligned_index + 1);
                assert(unaligned_index + 1 <= unaligned_list@.len());
                aligned.push(unaligned_list[unaligned_index]);
                unaligned_index = unaligned_index + 1;
            } else {
                aligned.push(null_value);
            }
            assert(aligned@ =~= target.take(i + 1));
            i = i + 1;
        }
        assert(target.take(instructions@.len() as int) =~= target);
        aligned
    }
    /// Whether a list of `list_len` elements can be padded against the
    /// instructions (see `can_pad`).
    pub fn padding_fits(
        alignment_instr: BarracudaInstructions,
        instructions: &Vec<BarracudaInstructions>,
        list_len: usize,
    ) -> (r: bool)
        ensures
            r == (instructions@.len() == list_len || count_before(instructions@, alignment_instr, instructions@.len() as int)
                <= list_len),
    {
        if instructions.len() == list_len {
            return true;
        }
        let mut count: usize = 0;
        let mut i: usize = 0;
        while i < instructions.len()
            invariant
                i <= instructions@.len(),
                count == count_before(instructions@, alignment_instr, i as int),
                count <= i,
            decreases instructions@.len() - i,
        {
            if instructions[i] == alignment_instr {
                count = count + 1;
            }
            i = i + 1;
        }
        count <= list_len
    }
}

/// The `.bct` comment lines for a list of comments.
pub open spec fn comment_lines(comments: Seq<Seq<char>>) -> Seq<char>
    decreases comments.len(),
{
    if comments.len() == 0 {
        Seq::empty()
    } else {
        comment_lines(comments.drop_last()) + seq!['#', ' '] + comments.last() + seq!['\n']
    }
}

/// The text of one instruction line: the value text for VALUE, the
/// operation name for OP, the instruction name otherwise.
pub open spec fn instruction_text(
    instruction: BarracudaInstructions,
    operation: BarracudaOperators,
    value_text: Seq<char>,
) -> Seq<char> {
    match instruction {
        BarracudaInstructions::VALUE => value_text,
        BarracudaInstructions::OP => operation.spec_name(),
        _ => instruction.spec_name(),
    }
}

/// The first line of the `.bct` text: the recommended stack size.
pub open spec fn stack_size_line(max_stack_size: usize) -> Seq<char> {
    seq!['#', ' ', 'R', 'E', 'C', 'O', 'M', 'M', 'E', 'N', 'D', 'E', 'D', '_', 'S', 'T', 'A', 'C', 'K', 'S', 'I', 'Z', 'E', ' ']
        + decimal(max_stack_size as nat) + seq!['\n']
}

impl ProgramCode {
    /// The `.bct` text of the first `n` instructions, each value written as
    /// its text in `value_texts`.
    pub open spec fn rendered_lines(&self, value_texts: Seq<Seq<char>>, n: int) -> Seq<char>
        decreases n,
    {
        if n <= 0 {
            Seq::empty()
        } else {
            let i = n - 1;
            self.rendered_lines(value_texts, i) + (if self.renders_decorations() && self.comments().contains_key(
                i as usize,
            ) {
                comment_lines(self.comments()[i as usize])
            } else {
                Seq::empty()
            }) + instruction_text(self.instructions@[i], self.operations@[i], value_texts[i]) + seq!['\n']
        }
    }

    /// The `.bct` text of the program: the recommended stack size as a
    /// comment, then one line per instruction in stored order, preceded by
    /// its comments when the program is decorated.
    pub open spec fn rendered(&self, value_texts: Seq<Seq<char>>) -> Seq<char> {
        stack_size_line(self.max_stack_size) + self.rendered_lines(value_texts, self.instructions@.len() as int)
    }

    /// Writes the `.bct` text of the program (see `rendered`); the text of
    /// each value is given, one per instruction.
    pub fn render_text(&self, value_texts: &Vec<String>) -> (r: String)
        requires
            self.aligned(),
            value_texts@.len() == self.instructions@.len(),
        ensures
            r@ == self.rendered(value_texts@.map_values(|t: String| t@)),
    {
        let ghost texts = value_texts@.map_values(|t: String| t@);
        let mut out: Vec<char> = Vec::new();
        let header = str_chars("# RECOMMENDED_STACKSIZE ");
        proof {
            reveal_strlit("# RECOMMENDED_STACKSIZE ");
        }
        let mut h: usize = 0;
        while h < header.len()
            invariant
                h <= header@.len(),
                out@ == header@.take(h as int),
            decreases header@.len() - h,
        {
            out.push(header[h]);
            assert(header@.take(h + 1) =~= header@.take(h as int).push(header@[h as int]));
            h = h + 1;
        }
        push_decimal(&mut out, self.max_stack_size as u64);
        out.push('\n');
        assert(out@ =~= stack_size_line(self.max_stack_size));
        let n = self.instructions.len();
        let mut i: usize = 0;
        while i < n
            invariant
                n == self.instructions@.len(),
                self.aligned(),
                value_texts@.len() == n,
                texts == value_texts@.map_values(|t: String| t@),
                i <= n,
                out@ == stack_size_line(self.max_stack_size) + self.rendered_lines(texts, i as int),
            decreases n - i,
        {
            let ghost before = out@;
            if self.render_decorations {
                if let Some(comments) = self.comments_at(i) {
                    let ghost cs = comments@.map_values(|c: String| c@);
                    let mut k: usize = 0;
                    while k < comments.len()
                        invariant
                            k <= comments@.len(),
                            cs == comments@.map_values(|c: String| c@),
                            out@ == before + comment_lines(cs.take(k as int)),
                        decreases comments@.len() - k,
                    {
                        assert(cs.take(k + 1).drop_last() =~= cs.take(k as int));
                        out.push('#');
                        out.push(' ');
                        let text = str_chars(comments[k].as_str());
                        let mut c: usize = 0;
                        let ghost mid = out@;
                        while c < text.len()
                            invariant
                                c <= text@.len(),
                                out@ == mid + text@.take(c as int),
                            decreases text@.len() - c,
                        {
                            out.push(text[c]);
                            assert(mid + text@.take(c + 1) =~= (mid + text@.take(c as int)).push(text@[c as int]));
                            c = c + 1;
                        }
                        out.push('\n');
                        assert(text@.take(c as int) =~= text@);
                        assert(cs.take(k + 1).last() == comments@[k as int]@);
                        assert(out@ =~= before + comment_lines(cs.take(k + 1)));
                        k = k + 1;
                    }
                    assert(cs.take(k as int) =~= cs);
                }
            }
            let ghost after_comments = out@;
            let line: Vec<char> = match self.instructions[i] {
                BarracudaInstructions::VALUE => str_chars(value_texts[i].as_str()),
                BarracudaInstructions::OP => match &self.operations[i] {
                    BarracudaOperators::FIXED(op) => op.name_chars(),
                },
                other => other.name_chars(),
            };
            proof {
                assert(texts[i as int] == value_texts@[i as int]@);
            }
            let mut c: usize = 0;
            while c < line.len()
                invariant
                    c <= line@.len(),
                    out@ == after_comments + line@.take(c as int),
                decreases line@.len() - c,
            {
                out.push(line[c]);
                assert(after_comments + line@.take(c + 1) =~= (after_comments + line@.take(c as int)).push(line@[c as int]));
                c = c + 1;
            }
            out.push('\n');
            assert(line@.take(c as int) =~= line@);
            assert(out@ =~= stack_size_line(self.max_stack_size) + self.rendered_lines(texts, i + 1));
            i = i + 1;
        }
        chars_to_string(&out)
    }
}

} // verus!
