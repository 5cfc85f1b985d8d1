//! A builder that emits program code item by item, with labels that jumps
//! can reference before the code they point at has been generated.
use vstd::prelude::*;
use crate::program_code::ProgramCode;
use crate::instructions::BarracudaInstructions;
use crate::ops::{BarracudaOperators, FixedBarracudaOperators};
use crate::program_code::null_operation;
use crate::text::str_chars;
use crate::ast::datatype::is_name;

verus! {

/// One item of the linear form the builder collects.
#[derive(Debug)]
pub enum BarracudaIR {
    /// A value loaded by a VALUE instruction (the bit pattern of the number).
    Value(u64),
    /// An instruction.
    Instruction(BarracudaInstructions),
    /// An operation run by an OP instruction.
    Operation(BarracudaOperators),
    /// Marks the position of the next instruction under a label id.
    Label(u64),
    /// A VALUE instruction loading the position a label marks.
    Reference(u64),
    /// A VALUE instruction loading the address of an array in user space.
    Array { address: usize, size: usize, qualifier: String },
    /// A value stored in the user space of the program.
    Userspace(u64, String),
    /// A comment for the next instruction.
    Comment(String),
}

/// The qualifier text `const`.
pub open spec fn const_text() -> Seq<char> {
    seq!['c', 'o', 'n', 's', 't']
}

/// The qualifier text `mut`.
pub open spec fn mut_text() -> Seq<char> {
    seq!['m', 'u', 't']
}

/// Whether an item becomes an instruction (labels, comments and user-space
/// values take no instruction slot).
pub open spec fn takes_slot(item: BarracudaIR) -> bool {
    !(item is Label || item is Comment || item is Userspace)
}

/// The number of instruction slots the first `n` items take.
pub open spec fn slots_before(ir: Seq<BarracudaIR>, n: int) -> nat
    decreases n,
{
    if n <= 0 {
        0
    } else {
        slots_before(ir, n - 1) + if takes_slot(ir[n - 1]) { 1nat } else { 0nat }
    }
}

/// Where label `id` points after the first `n` items: the slot that follows
/// its last `Label` item, or 0 when it has not been set.
pub open spec fn label_location(ir: Seq<BarracudaIR>, id: u64, n: int) -> nat
    decreases n,
{
    if n <= 0 {
        0
    } else if ir[n - 1] == BarracudaIR::Label(id) {
        slots_before(ir, n - 1)
    } else {
        label_location(ir, id, n - 1)
    }
}

/// The tables of a program, as the builder produces them.
pub struct ResolvedCode {
    pub values: Seq<u64>,
    pub operations: Seq<BarracudaOperators>,
    pub instructions: Seq<BarracudaInstructions>,
    pub mutable_size: nat,
    pub constant_size: nat,
    pub mutable_user_space: Seq<u64>,
    pub constant_user_space: Seq<u64>,
    pub comments: Map<usize, Seq<Seq<char>>>,
}

/// The tables of an empty program.
pub open spec fn empty_code() -> ResolvedCode {
    ResolvedCode {
        values: Seq::empty(),
        operations: Seq::empty(),
        instructions: Seq::empty(),
        mutable_size: 0,
        constant_size: 0,
        mutable_user_space: Seq::empty(),
        constant_user_space: Seq::empty(),
        comments: Map::empty(),
    }
}

/// The tables after one more value instruction.
pub open spec fn with_value(code: ResolvedCode, value: u64) -> ResolvedCode {
    ResolvedCode {
        values: code.values.push(value),
        operations: code.operations.push(null_operation()),
        instructions: code.instructions.push(BarracudaInstructions::VALUE),
        ..code
    }
}

/// The tables after one more item, labels resolved through `ir` (the whole
/// program) and mutable arrays placed after `env_vars` environment variables.
pub open spec fn resolve_item(code: ResolvedCode, item: BarracudaIR, ir: Seq<BarracudaIR>, env_vars: usize) -> ResolvedCode {
    match item {
        BarracudaIR::Instruction(i) => ResolvedCode {
            values: code.values.push(0u64),
            operations: code.operations.push(null_operation()),
            instructions: code.instructions.push(i),
            ..code
        },
        BarracudaIR::Operation(op) => ResolvedCode {
            values: code.values.push(0u64),
            operations: code.operations.push(op),
            instructions: code.instructions.push(BarracudaInstructions::OP),
            ..code
        },
        BarracudaIR::Value(v) => with_value(code, v),
        BarracudaIR::Reference(id) => with_value(code, label_location(ir, id, ir.len() as int) as u64),
        BarracudaIR::Array { address, size, qualifier } => if qualifier@ == const_text() {
            ResolvedCode { constant_size: code.constant_size + size as nat, ..with_value(code, address as u64) }
        } else {
            ResolvedCode { mutable_size: code.mutable_size + size as nat, ..with_value(code, (address + env_vars) as u64) }
        },
        BarracudaIR::Userspace(v, qualifier) => if qualifier@ == const_text() {
            ResolvedCode { constant_user_space: code.constant_user_space.push(v), ..code }
        } else {
            ResolvedCode { mutable_user_space: code.mutable_user_space.push(v), ..code }
        },
        BarracudaIR::Label(_) => code,
        BarracudaIR::Comment(c) => {
            let line = code.instructions.len() as usize;
            ResolvedCode {
                comments: code.comments.insert(
                    line,
                    if code.comments.contains_key(line) {
                        code.comments[line].push(c@)
                    } else {
                        seq![c@]
                    },
                ),
                ..code
            }
        },
    }
}

/// The tables made from the first `n` items of `ir`.
pub open spec fn resolve_prefix(ir: Seq<BarracudaIR>, n: int, env_vars: usize) -> ResolvedCode
    decreases n,
{
    if n <= 0 {
        empty_code()
    } else {
        resolve_item(resolve_prefix(ir, n - 1, env_vars), ir[n - 1], ir, env_vars)
    }
}

/// The tables made from a whole program.
pub open spec fn resolve_all(ir: Seq<BarracudaIR>, env_vars: usize) -> ResolvedCode {
    resolve_prefix(ir, ir.len() as int, env_vars)
}

/// The total array size of the first `n` items with the given qualifier.
pub open spec fn array_sizes(ir: Seq<BarracudaIR>, n: int, constant: bool) -> nat
    decreases n,
{
    if n <= 0 {
        0
    } else {
        array_sizes(ir, n - 1, constant) + match ir[n - 1] {
            BarracudaIR::Array { size, qualifier, .. } => if (qualifier@ == const_text()) == constant {
                size as nat
            } else {
                0nat
            },
            _ => 0nat,
        }
    }
}

/// Whether a program can be finalized: every label id is below the number
/// of labels created, every array is `const` or `mut`, mutable array
/// addresses shifted by the environment variables fit in a `usize`, and the
/// user-space sizes fit in a `u64`.
pub open spec fn can_finalize(ir: Seq<BarracudaIR>, label_count: u64, env_vars: usize) -> bool {
    &&& label_count <= usize::MAX
    &&& forall|k: int|
        0 <= k < ir.len() ==> match #[trigger] ir[k] {
            BarracudaIR::Label(id) => id < label_count,
            BarracudaIR::Reference(id) => id < label_count,
            BarracudaIR::Array { address, qualifier, .. } => qualifier@ == const_text() || (qualifier@ == mut_text()
                && address + env_vars <= usize::MAX),
            BarracudaIR::Userspace(_, qualifier) => qualifier@ == const_text() || qualifier@ == mut_text(),
            _ => true,
        }
    &&& array_sizes(ir, ir.len() as int, true) <= u64::MAX
    &&& array_sizes(ir, ir.len() as int, false) <= u64::MAX
}

/// Whether a qualifier text is `const`.
fn is_const_text(qualifier: &String) -> (r: bool)
    ensures
        r == (qualifier@ == const_text()),
{
    let chars = str_chars(qualifier.as_str());
    is_name(&chars, &['c', 'o', 'n', 's', 't'])
}

/// Whether a qualifier text is `mut`.
fn is_mut_text(qualifier: &String) -> (r: bool)
    ensures
        r == (qualifier@ == mut_text()),
{
    let chars = str_chars(qualifier.as_str());
    is_name(&chars, &['m', 'u', 't'])
}

/// BarracudaProgramCodeBuilder builds program code item by item. Labels let
/// code jump to places whose instruction index is only known once the whole
/// program has been emitted.
pub struct BarracudaProgramCodeBuilder {
    program_out: Vec<BarracudaIR>,
    label_count: u64,
    env_var_count: usize,
    precision: usize,
}

impl BarracudaProgramCodeBuilder {
    /// The items emitted so far.
    pub closed spec fn program(&self) -> Seq<BarracudaIR> {
        self.program_out@
    }

    /// The number of labels created so far.
    pub closed spec fn labels(&self) -> u64 {
        self.label_count
    }

    /// The number of environment variables declared so far.
    pub closed spec fn env_vars(&self) -> usize {
        self.env_var_count
    }

    /// The precision of the values, in bits.
    pub closed spec fn spec_precision(&self) -> usize {
        self.precision
    }

    /// An empty builder with 32-bit precision.
    pub fn new() -> (r: Self)
        ensures
            r.program() == Seq::<BarracudaIR>::empty(),
            r.labels() == 0,
            r.env_vars() == 0,
            r.spec_precision() == 32,
    {
        Self { program_out: Vec::new(), label_count: 0, env_var_count: 0, precision: 32 }
    }

    /// Emits a value to be loaded by the next instruction.
    pub fn emit_value(&mut self, value: u64)
        ensures
            final(self).program() == old(self).program().push(BarracudaIR::Value(value)),
            final(self).labels() == old(self).labels(),
            final(self).env_vars() == old(self).env_vars(),
            final(self).spec_precision() == old(self).spec_precision(),
    {
        self.program_out.push(BarracudaIR::Value(value));
    }

    /// Emits an instruction.
    pub fn emit_instruction(&mut self, instruction: BarracudaInstructions)
        ensures
            final(self).program() == old(self).program().push(BarracudaIR::Instruction(instruction)),
            final(self).labels() == old(self).labels(),
            final(self).env_vars() == old(self).env_vars(),
            final(self).spec_precision() == old(self).spec_precision(),
    {
        self.program_out.push(BarracudaIR::Instruction(instruction));
    }

    /// Emits an operation.
    pub fn emit_op(&mut self, operation: FixedBarracudaOperators)
        ensures
            final(self).program() == old(self).program().push(
                BarracudaIR::Operation(BarracudaOperators::FIXED(operation)),
            ),
            final(self).labels() == old(self).labels(),
            final(self).env_vars() == old(self).env_vars(),
            final(self).spec_precision() == old(self).spec_precision(),
    {
        self.program_out.push(BarracudaIR::Operation(BarracudaOperators::FIXED(operation)));
    }

    /// Emits a user-space value with qualifier `const` or `mut`.
    pub fn emit_userspace(&mut self, value: u64, qualifier: String)
        requires
            qualifier@ == const_text() || qualifier@ == mut_text(),
        ensures
            final(self).program() == old(self).program().push(BarracudaIR::Userspace(value, qualifier)),
            final(self).labels() == old(self).labels(),
            final(self).env_vars() == old(self).env_vars(),
            final(self).spec_precision() == old(self).spec_precision(),
    {
        self.program_out.push(BarracudaIR::Userspace(value, qualifier));
    }

    /// Attaches a comment to the next instruction.
    pub fn comment(&mut self, comment: String)
        ensures
            final(self).program() == old(self).program().push(BarracudaIR::Comment(comment)),
            final(self).labels() == old(self).labels(),
            final(self).env_vars() == old(self).env_vars(),
            final(self).spec_precision() == old(self).spec_precision(),
    {
        self.program_out.push(BarracudaIR::Comment(comment));
    }

    /// A new label id, unused so far.
    pub fn create_label(&mut self) -> (r: u64)
        requires
            old(self).labels() < u64::MAX,
        ensures
            r == old(self).labels(),
            final(self).labels() == old(self).labels() + 1,
            final(self).program() == old(self).program(),
            final(self).env_vars() == old(self).env_vars(),
            final(self).spec_precision() == old(self).spec_precision(),
    {
        let label = self.label_count;
        self.label_count = self.label_count + 1;
        label
    }

    /// Marks the position of the next instruction with a label.
    pub fn set_label(&mut self, label: u64)
        ensures
            final(self).program() == old(self).program().push(BarracudaIR::Label(label)),
            final(self).labels() == old(self).labels(),
            final(self).env_vars() == old(self).env_vars(),
            final(self).spec_precision() == old(self).spec_precision(),
    {
        self.program_out.push(BarracudaIR::Label(label));
    }

    /// Emits a value that will be the position the label marks.
    pub fn reference(&mut self, label: u64)
        ensures
            final(self).program() == old(self).program().push(BarracudaIR::Reference(label)),
            final(self).labels() == old(self).labels(),
            final(self).env_vars() == old(self).env_vars(),
            final(self).spec_precision() == old(self).spec_precision(),
    {
        self.program_out.push(BarracudaIR::Reference(label));
    }

    /// Emits the address of an array, placed in user space on finalization.
    pub fn emit_array(&mut self, address: usize, size: usize, qualifier: String)
        ensures
            final(self).program() == old(self).program().push(BarracudaIR::Array { address, size, qualifier }),
            final(self).labels() == old(self).labels(),
            final(self).env_vars() == old(self).env_vars(),
            final(self).spec_precision() == old(self).spec_precision(),
    {
        self.program_out.push(BarracudaIR::Array { address, size, qualifier });
    }

    /// Counts one more environment variable; mutable arrays are placed after them.
    pub fn add_environment_variable(&mut self)
        requires
            old(self).env_vars() < usize::MAX,
        ensures
            final(self).env_vars() == old(self).env_vars() + 1,
            final(self).program() == old(self).program(),
            final(self).labels() == old(self).labels(),
            final(self).spec_precision() == old(self).spec_precision(),
    {
        self.env_var_count = self.env_var_count + 1;
    }

    /// Sets the precision of the values, in bits.
    pub fn set_precision(&mut self, precision: usize)
        ensures
            final(self).spec_precision() == precision,
            final(self).program() == old(self).program(),
            final(self).labels() == old(self).labels(),
            final(self).env_vars() == old(self).env_vars(),
    {
        self.precision = precision;
    }

    /// Resolves the items into program code, consuming the builder.
    pub fn finalize(self) -> (r: ProgramCode)
        requires
            can_finalize(self.program(), self.labels(), self.env_vars()),
        ensures
            r.values@ == resolve_all(self.program(), self.env_vars()).values,
            r.operations@ == resolve_all(self.program(), self.env_vars()).operations,
            r.instructions@ == resolve_all(self.program(), self.env_vars()).instructions,
            r.user_space_size@ == seq![
                resolve_all(self.program(), self.env_vars()).mutable_size as u64,
                resolve_all(self.program(), self.env_vars()).constant_size as u64,
            ],
            r.mutable_user_space@ == resolve_all(self.program(), self.env_vars()).mutable_user_space,
            r.constant_user_space@ == resolve_all(self.program(), self.env_vars()).constant_user_space,
            r.comments() == resolve_all(self.program(), self.env_vars()).comments,
            r.max_stack_size == 0,
            !r.renders_decorations(),
    {
        self.resolve_labels()
    }

    /// Like `finalize`, with `header` values inserted before the program.
    pub fn finalize_with_header(self, header: Vec<u64>) -> (r: ProgramCode)
        requires
            can_finalize(
                Seq::new(header@.len(), |k: int| BarracudaIR::Value(header@[k])) + self.program(),
                self.labels(),
                self.env_vars(),
            ),
        ensures
            ({
                let ir = Seq::new(header@.len(), |k: int| BarracudaIR::Value(header@[k])) + self.program();
                let code = resolve_all(ir, self.env_vars());
                &&& r.values@ == code.values
                &&& r.operations@ == code.operations
                &&& r.instructions@ == code.instructions
                &&& r.user_space_size@ == seq![code.mutable_size as u64, code.constant_size as u64]
                &&& r.mutable_user_space@ == code.mutable_user_space
                &&& r.constant_user_space@ == code.constant_user_space
                &&& r.comments() == code.comments
            }),
    {
        let mut s = self;
        s.insert_program_header(header);
        s.finalize()
    }

    /// Puts the header values before the items.
    fn insert_program_header(&mut self, header: Vec<u64>)
        ensures
            final(self).program() == Seq::new(header@.len(), |k: int| BarracudaIR::Value(header@[k])) + old(
                self,
            ).program(),
            final(self).labels() == old(self).labels(),
            final(self).env_vars() == old(self).env_vars(),
            final(self).spec_precision() == old(self).spec_precision(),
    {
        let mut items: Vec<BarracudaIR> = Vec::new();
        let n = header.len();
        let mut i: usize = 0;
        while i < n
            invariant
                n == header@.len(),
                i <= n,
                items@ == Seq::new(i as nat, |k: int| BarracudaIR::Value(header@[k])),
            decreases n - i,
        {
            items.push(BarracudaIR::Value(header[i]));
            assert(items@ =~= Seq::new((i + 1) as nat, |k: int| BarracudaIR::Value(header@[k])));
            i = i + 1;
        }
        let ghost front = items@;
        let mut rest = Vec::new();
        std::mem::swap(&mut rest, &mut self.program_out);
        let ghost old_items = rest@;
        items.append(&mut rest);
        self.program_out = items;
        assert(self.program_out@ =~= front + old_items);
    }

    /// The position each label marks (see `label_location`).
    fn get_label_locations(&self) -> (r: Vec<usize>)
        requires
            can_finalize(self.program(), self.labels(), self.env_vars()),
        ensures
            r@.len() == self.labels(),
            forall|id: int|
                0 <= id < self.labels() ==> r@[id] == label_location(
                    self.program(),
                    id as u64,
                    self.program().len() as int,
                ),
    {
        let count = self.label_count as usize;
        let mut locations: Vec<usize> = Vec::new();
        let mut j: usize = 0;
        while j < count
            invariant
                j <= count,
                count == self.label_count,
                locations@.len() == j,
                forall|id: int| 0 <= id < j ==> locations@[id] == 0,
            decreases count - j,
        {
            locations.push(0);
            j = j + 1;
        }
        let ghost ir = self.program_out@;
        let mut current_line: usize = 0;
        let mut i: usize = 0;
        while i < self.program_out.len()
            invariant
                ir == self.program_out@,
                can_finalize(ir, self.label_count, self.env_var_count),
                count == self.label_count,
                i <= ir.len(),
                locations@.len() == count,
                current_line == slots_before(ir, i as int),
                current_line <= i,
                forall|id: int| 0 <= id < count ==> locations@[id] == label_location(ir, id as u64, i as int),
            decreases ir.len() - i,
        {
            let ghost item = ir[i as int];
            assert(can_finalize(ir, self.label_count, self.env_var_count));
            match &self.program_out[i] {
                BarracudaIR::Label(id) => {
                    assert(*id < self.label_count);
                    locations.set(*id as usize, current_line);
                },
                BarracudaIR::Comment(_) => {},
                BarracudaIR::Userspace(_, _) => {},
                _ => {
                    current_line = current_line + 1;
                },
            }
            i = i + 1;
        }
        locations
    }

    /// Resolves every item into program code, references replaced with the
    /// positions their labels mark.
    fn resolve_labels(self) -> (r: ProgramCode)
        requires
            can_finalize(self.program(), self.labels(), self.env_vars()),
        ensures
            r.values@ == resolve_all(self.program(), self.env_vars()).values,
            r.operations@ == resolve_all(self.program(), self.env_vars()).operations,
            r.instructions@ == resolve_all(self.program(), self.env_vars()).instructions,
            r.user_space_size@ == seq![
                resolve_all(self.program(), self.env_vars()).mutable_size as u64,
                resolve_all(self.program(), self.env_vars()).constant_size as u64,
            ],
            r.mutable_user_space@ == resolve_all(self.program(), self.env_vars()).mutable_user_space,
            r.constant_user_space@ == resolve_all(self.program(), self.env_vars()).constant_user_space,
            r.comments() == resolve_all(self.program(), self.env_vars()).comments,
            r.max_stack_size == 0,
            !r.renders_decorations(),
    {
        let locations = self.get_label_locations();
        let ghost ir = self.program_out@;
        let env = self.env_var_count;
        let mut output_program = ProgramCode::default();
        let mut i: usize = 0;
        while i < self.program_out.len()
            invariant
                ir == self.program_out@,
                env == self.env_var_count,
                can_finalize(ir, self.label_count, env),
                i <= ir.len(),
                locations@.len() == self.label_count,
                forall|id: int|
                    0 <= id < self.label_count ==> locations@[id] == label_location(ir, id as u64, ir.len() as int),
                ({
                    let code = resolve_prefix(ir, i as int, env);
                    &&& output_program.values@ == code.values
                    &&& output_program.operations@ == code.operations
                    &&& output_program.instructions@ == code.instructions
                    &&& output_program.user_space_size@ == seq![code.mutable_size as u64, code.constant_size as u64]
                    &&& code.mutable_size == array_sizes(ir, i as int, false)
                    &&& code.constant_size == array_sizes(ir, i as int, true)
                    &&& output_program.mutable_user_space@ == code.mutable_user_space
                    &&& output_program.constant_user_space@ == code.constant_user_space
                    &&& output_program.comments() == code.comments
                }),
                output_program.max_stack_size == 0,
                !output_program.renders_decorations(),
            decreases ir.len() - i,
        {
            let ghost before = resolve_prefix(ir, i as int, env);
            proof {
                lemma_array_sizes_monotone(ir, i + 1, ir.len() as int, true);
                lemma_array_sizes_monotone(ir, i + 1, ir.len() as int, false);
            }
            match &self.program_out[i] {
                BarracudaIR::Instruction(instruction) => {
                    output_program.push_instruction(*instruction);
                },
                BarracudaIR::Operation(operation) => {
                    output_program.push_operation(*operation);
                },
                BarracudaIR::Value(value) => {
                    output_program.push_value(*value);
                },
                BarracudaIR::Reference(id) => {
                    let location = locations[*id as usize];
                    output_program.push_value(location as u64);
                },
                BarracudaIR::Array { address, size, qualifier } => {
                    if is_const_text(qualifier) {
                        output_program.push_value(*address as u64);
                        let total = output_program.user_space_size[1] + *size as u64;
                        output_program.user_space_size.set(1, total);
                    } else {
                        output_program.push_value((*address + env) as u64);
                        let total = output_program.user_space_size[0] + *size as u64;
                        output_program.user_space_size.set(0, total);
                    }
                },
                BarracudaIR::Userspace(value, qualifier) => {
                    if is_const_text(qualifier) {
                        output_program.push_constant_userspace(*value);
                    } else {
                        output_program.push_mutable_userspace(*value);
                    }
                },
                BarracudaIR::Label(_) => {},
                BarracudaIR::Comment(comment) => {
                    output_program.push_comment(comment.clone());
                },
            }
            proof {
                let after = resolve_prefix(ir, i + 1, env);
                assert(after == resolve_item(before, ir[i as int], ir, env));
                assert(output_program.user_space_size@ =~= seq![after.mutable_size as u64, after.constant_size as u64]);
            }
            i = i + 1;
        }
        output_program
    }
}

/// The array sizes of a prefix are at most those of a longer prefix.
proof fn lemma_array_sizes_monotone(ir: Seq<BarracudaIR>, i: int, j: int, constant: bool)
    requires
        0 <= i <= j,
    ensures
        array_sizes(ir, i, constant) <= array_sizes(ir, j, constant),
    decreases j - i,
{
    if i < j {
        lemma_array_sizes_monotone(ir, i, j - 1, constant);
    }
}

/// The value an instruction-taking item loads (0 for instructions and operations).
pub open spec fn item_value(item: BarracudaIR, ir: Seq<BarracudaIR>, env_vars: usize) -> u64 {
    match item {
        BarracudaIR::Value(v) => v,
        BarracudaIR::Reference(id) => label_location(ir, id, ir.len() as int) as u64,
        BarracudaIR::Array { address, qualifier, .. } => if qualifier@ == const_text() {
            address as u64
        } else {
            (address + env_vars) as u64
        },
        _ => 0,
    }
}

/// The tables of a prefix have one entry per instruction slot taken so far.
proof fn lemma_prefix_lengths(ir: Seq<BarracudaIR>, n: int, env_vars: usize)
    requires
        0 <= n <= ir.len(),
    ensures
        resolve_prefix(ir, n, env_vars).instructions.len() == slots_before(ir, n),
        resolve_prefix(ir, n, env_vars).values.len() == slots_before(ir, n),
        resolve_prefix(ir, n, env_vars).operations.len() == slots_before(ir, n),
    decreases n,
{
    if n > 0 {
        lemma_prefix_lengths(ir, n - 1, env_vars);
    }
}

/// The slots taken before an item are at most those taken before a later one.
proof fn lemma_slots_monotone(ir: Seq<BarracudaIR>, i: int, j: int)
    requires
        0 <= i <= j,
    ensures
        slots_before(ir, i) <= slots_before(ir, j),
    decreases j - i,
{
    if i < j {
        lemma_slots_monotone(ir, i, j - 1);
    }
}

/// The item at index `i` that takes a slot becomes the instruction at index
/// `slots_before(ir, i)`, loading its value.
proof fn lemma_item_at_slot(ir: Seq<BarracudaIR>, n: int, i: int, env_vars: usize)
    requires
        0 <= i < n <= ir.len(),
        takes_slot(ir[i]),
    ensures
        resolve_prefix(ir, n, env_vars).values[slots_before(ir, i) as int] == item_value(ir[i], ir, env_vars),
    decreases n,
{
    lemma_prefix_lengths(ir, n - 1, env_vars);
    if n - 1 > i {
        lemma_item_at_slot(ir, n - 1, i, env_vars);
        lemma_slots_monotone(ir, i + 1, n - 1);
    }
}

/// The position a label marks is the slot after its last `Label` item.
proof fn lemma_label_location_last(ir: Seq<BarracudaIR>, id: u64, j: int, n: int)
    requires
        0 <= j < n <= ir.len(),
        ir[j] == BarracudaIR::Label(id),
        forall|k: int| j < k < n ==> ir[k] != BarracudaIR::Label(id),
    ensures
        label_location(ir, id, n) == slots_before(ir, j),
    decreases n,
{
    if n - 1 > j {
        lemma_label_location_last(ir, id, j, n - 1);
    }
}

/// The three tables a builder produces line up: one value, one operation
/// and one instruction per instruction-taking item.
pub proof fn law_tables_aligned(ir: Seq<BarracudaIR>, env_vars: usize)
    ensures
        resolve_all(ir, env_vars).instructions.len() == slots_before(ir, ir.len() as int),
        resolve_all(ir, env_vars).values.len() == resolve_all(ir, env_vars).instructions.len(),
        resolve_all(ir, env_vars).operations.len() == resolve_all(ir, env_vars).instructions.len(),
{
    lemma_prefix_lengths(ir, ir.len() as int, env_vars);
}

/// A reference to a label loads the index of the instruction that follows
/// the label's last `Label` item: labels, comments and user-space values take
/// no instruction slot.
pub proof fn law_reference_points_at_label(ir: Seq<BarracudaIR>, env_vars: usize, id: u64, label_at: int, reference_at: int)
    requires
        0 <= label_at < ir.len(),
        ir[label_at] == BarracudaIR::Label(id),
        forall|k: int| label_at < k < ir.len() ==> ir[k] != BarracudaIR::Label(id),
        0 <= reference_at < ir.len(),
        ir[reference_at] == BarracudaIR::Reference(id),
    ensures
        resolve_all(ir, env_vars).values[slots_before(ir, reference_at) as int] == slots_before(ir, label_at) as u64,
{
    lemma_item_at_slot(ir, ir.len() as int, reference_at, env_vars);
    lemma_label_location_last(ir, id, label_at, ir.len() as int);
}

/// Every item that takes a slot becomes the instruction at the number of
/// slots taken before it: a value loads its value, an operation runs with OP.
pub proof fn law_items_keep_their_order(ir: Seq<BarracudaIR>, env_vars: usize, i: int)
    requires
        0 <= i < ir.len(),
        takes_slot(ir[i]),
    ensures
        resolve_all(ir, env_vars).values[slots_before(ir, i) as int] == item_value(ir[i], ir, env_vars),
        slots_before(ir, i) < resolve_all(ir, env_vars).instructions.len(),
{
    lemma_item_at_slot(ir, ir.len() as int, i, env_vars);
    lemma_prefix_lengths(ir, ir.len() as int, env_vars);
    lemma_slots_monotone(ir, i + 1, ir.len() as int);
}

} // verus!
