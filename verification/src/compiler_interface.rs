//! The data exchanged with a host that calls the compiler: the environment
//! variables it declares, and the flat tables of the compiled program.
use vstd::prelude::*;
use crate::ast::datatype::{PrimitiveDataType, spec_parse_primitive};
use crate::ast::qualifiers::{Qualifier, spec_qualifier_named};
use crate::ast::environment_symbol_context::EnvironmentSymbolContext;
use crate::program_code::ProgramCode;
use crate::instructions::BarracudaInstructions;
use crate::ops::BarracudaOperators;

verus! {

/// An environment variable the host declares: its name, its offset in the
/// host's user space, and the texts of its datatype, qualifier and pointer levels.
#[derive(Debug)]
pub struct EnvironmentVariable {
    pub identifier: String,
    pub ptr_offset: usize,
    pub datatype: String,
    pub qualifier: String,
    pub ptr_levels: String,
}

/// The environment the first `n` declarations describe: each identifier
/// bound to its offset, parsed datatype, parsed qualifier and pointer levels,
/// a later declaration replacing an earlier one.
pub open spec fn declared_environment(env_vars: Seq<EnvironmentVariable>, n: int) -> Map<
    Seq<char>,
    (usize, PrimitiveDataType, Qualifier, Seq<char>),
>
    decreases n,
{
    if n <= 0 {
        Map::empty()
    } else {
        let v = env_vars[n - 1];
        declared_environment(env_vars, n - 1).insert(
            v.identifier@,
            (v.ptr_offset, spec_parse_primitive(v.datatype@).unwrap(), spec_qualifier_named(v.qualifier@), v.ptr_levels@),
        )
    }
}

/// Whether every declared datatype names a primitive type.
pub open spec fn datatypes_known(env_vars: Seq<EnvironmentVariable>) -> bool {
    forall|i: int| 0 <= i < env_vars.len() ==> (#[trigger] spec_parse_primitive(env_vars[i].datatype@)) is Some
}

/// Builds the environment context of a request. Every datatype must name a
/// primitive type.
pub fn generate_environment_context(env_vars: &Vec<EnvironmentVariable>) -> (r: EnvironmentSymbolContext)
    requires
        datatypes_known(env_vars@),
    ensures
        r.wf(),
        r.view() == declared_environment(env_vars@, env_vars@.len() as int),
{
    match try_generate_environment_context(env_vars) {
        Some(context) => context,
        None => EnvironmentSymbolContext::new(),
    }
}

/// Builds the environment context of a request, or `None` when a datatype
/// names no primitive type.
pub fn try_generate_environment_context(env_vars: &Vec<EnvironmentVariable>) -> (r: Option<EnvironmentSymbolContext>)
    ensures
        datatypes_known(env_vars@) <==> r is Some,
        r matches Some(c) ==> c.wf() && c.view() == declared_environment(env_vars@, env_vars@.len() as int),
{
    let mut context = EnvironmentSymbolContext::new();
    let n = env_vars.len();
    let mut i: usize = 0;
    while i < n
        invariant
            n == env_vars@.len(),
            i <= n,
            context.wf(),
            context.view() == declared_environment(env_vars@, i as int),
            forall|k: int| 0 <= k < i ==> (#[trigger] spec_parse_primitive(env_vars@[k].datatype@)) is Some,
        decreases n - i,
    {
        let env_var = &env_vars[i];
        let datatype = match PrimitiveDataType::parse(env_var.datatype.clone()) {
            Some(d) => d,
            None => {
                return None;
            },
        };
        let qualifier = Qualifier::from_str(env_var.qualifier.clone());
        context.add_symbol(env_var.identifier.clone(), env_var.ptr_offset, datatype, qualifier, env_var.ptr_levels.clone());
        i = i + 1;
    }
    Some(context)
}

/// The flat tables of a compiled program as a host receives them.
#[derive(Debug)]
pub struct ResponseTables {
    /// Instruction codes, first executed first.
    pub instructions_list: Vec<u32>,
    /// Operation codes, aligned with the instructions.
    pub operations_list: Vec<u64>,
    /// Value bit patterns, aligned with the instructions.
    pub values_list: Vec<u64>,
    /// The mutable user space followed by the constant user space.
    pub user_space: Vec<u64>,
    /// Sizes of the mutable and constant user space.
    pub user_space_size: Vec<u64>,
}

/// Flattens a program for the host: the tables in execution order (the
/// program stores them last instruction first), instructions and operations
/// by their codes, the two user spaces joined, and the environment variables
/// counted into the mutable user-space size.
pub fn response_tables(program: &ProgramCode, env_var_count: usize) -> (r: ResponseTables)
    requires
        program.user_space_size@.len() == 2,
        program.user_space_size@[0] + env_var_count <= u64::MAX,
    ensures
        r.instructions_list@ == program.instructions@.reverse().map_values(|i: BarracudaInstructions| i.spec_code()),
        r.operations_list@ == program.operations@.reverse().map_values(|op: BarracudaOperators| op.spec_opcode() as u64),
        r.values_list@ == program.values@.reverse(),
        r.user_space@ == program.mutable_user_space@ + program.constant_user_space@,
        r.user_space_size@ == program.user_space_size@.update(0, (program.user_space_size@[0] + env_var_count) as u64),
{
    let mut instructions_list: Vec<u32> = Vec::new();
    let n = program.instructions.len();
    let mut i: usize = n;
    while i > 0
        invariant
            n == program.instructions@.len(),
            i <= n,
            instructions_list@.len() == n - i,
            forall|k: int| 0 <= k < n - i ==> instructions_list@[k] == program.instructions@[n - 1 - k].spec_code(),
        decreases i,
    {
        instructions_list.push(program.instructions[i - 1].as_u32());
        i = i - 1;
    }
    assert(instructions_list@ =~= program.instructions@.reverse().map_values(|i: BarracudaInstructions| i.spec_code()));
    let mut operations_list: Vec<u64> = Vec::new();
    let m = program.operations.len();
    let mut j: usize = m;
    while j > 0
        invariant
            m == program.operations@.len(),
            j <= m,
            operations_list@.len() == m - j,
            forall|k: int| 0 <= k < m - j ==> operations_list@[k] == program.operations@[m - 1 - k].spec_opcode() as u64,
        decreases j,
    {
        operations_list.push(program.operations[j - 1].as_u32() as u64);
        j = j - 1;
    }
    assert(operations_list@ =~= program.operations@.reverse().map_values(
        |op: BarracudaOperators| op.spec_opcode() as u64,
    ));
    let mut values_list: Vec<u64> = Vec::new();
    let v = program.values.len();
    let mut k: usize = v;
    while k > 0
        invariant
            v == program.values@.len(),
            k <= v,
            values_list@.len() == v - k,
            forall|q: int| 0 <= q < v - k ==> values_list@[q] == program.values@[v - 1 - q],
        decreases k,
    {
        values_list.push(program.values[k - 1]);
        k = k - 1;
    }
    assert(values_list@ =~= program.values@.reverse());
    let mut user_space: Vec<u64> = Vec::new();
    let mut a: usize = 0;
    while a < program.mutable_user_space.len()
        invariant
            a <= program.mutable_user_space@.len(),
            user_space@ == program.mutable_user_space@.take(a as int),
        decreases program.mutable_user_space@.len() - a,
    {
        user_space.push(program.mutable_user_space[a]);
        assert(program.mutable_user_space@.take(a + 1) =~= program.mutable_user_space@.take(a as int).push(
            program.mutable_user_space@[a as int],
        ));
        a = a + 1;
    }
    assert(program.mutable_user_space@.take(a as int) =~= program.mutable_user_space@);
    let mut b: usize = 0;
    while b < program.constant_user_space.len()
        invariant
            b <= program.constant_user_space@.len(),
            user_space@ == program.mutable_user_space@ + program.constant_user_space@.take(b as int),
        decreases program.constant_user_space@.len() - b,
    {
        user_space.push(program.constant_user_space[b]);
        assert(program.mutable_user_space@ + program.constant_user_space@.take(b + 1) =~= (program.mutable_user_space@
            + program.constant_user_space@.take(b as int)).push(program.constant_user_space@[b as int]));
        b = b + 1;
    }
    assert(program.constant_user_space@.take(b as int) =~= program.constant_user_space@);
    let mut user_space_size: Vec<u64> = Vec::new();
    user_space_size.push(program.user_space_size[0] + env_var_count as u64);
    user_space_size.push(program.user_space_size[1]);
    assert(user_space_size@ =~= program.user_space_size@.update(
        0,
        (program.user_space_size@[0] + env_var_count) as u64,
    ));
    ResponseTables { instructions_list, operations_list, values_list, user_space, user_space_size }
}

/// The addresses of command-line environment variables: a given address is
/// kept; the others are numbered 0, 1, 2, ... in the order they come.
pub open spec fn assigned_addresses(given: Seq<Option<usize>>) -> Seq<usize>
    decreases given.len(),
{
    if given.len() == 0 {
        Seq::empty()
    } else {
        let before = assigned_addresses(given.drop_last());
        match given.last() {
            Some(address) => before.push(address),
            None => before.push(unaddressed_before(given.drop_last()) as usize),
        }
    }
}

/// How many of the variables come without an address.
pub open spec fn unaddressed_before(given: Seq<Option<usize>>) -> nat
    decreases given.len(),
{
    if given.len() == 0 {
        0
    } else {
        unaddressed_before(given.drop_last()) + if given.last() is None { 1nat } else { 0nat }
    }
}

/// Assigns addresses to command-line environment variables (see
/// `assigned_addresses`). Given addresses are not checked against the
/// numbered ones: `a:1 b c` gives `a` 1, `b` 0 and `c` 1.
pub fn assign_environment_addresses(given: &Vec<Option<usize>>) -> (r: Vec<usize>)
    ensures
        r@ == assigned_addresses(given@),
{
    let mut out: Vec<usize> = Vec::new();
    let mut next_id: usize = 0;
    let n = given.len();
    let mut i: usize = 0;
    while i < n
        invariant
            n == given@.len(),
            i <= n,
            out@ == assigned_addresses(given@.take(i as int)),
            next_id == unaddressed_before(given@.take(i as int)),
            next_id <= i,
        decreases n - i,
    {
        assert(given@.take(i + 1).drop_last() =~= given@.take(i as int));
        assert(given@.take(i + 1).last() == given@[i as int]);
        match given[i] {
            Some(id) => out.push(id),
            None => {
                out.push(next_id);
                next_id = next_id + 1;
            },
        }
        i = i + 1;
    }
    assert(given@.take(n as int) =~= given@);
    out
}

/// Every variable keeps its given address, and the variables without one
/// are numbered 0, 1, 2, ... in the order they come.
pub proof fn law_unaddressed_numbered_in_order(given: Seq<Option<usize>>, i: int)
    requires
        0 <= i < given.len(),
    ensures
        assigned_addresses(given).len() == given.len(),
        given[i] matches Some(a) ==> assigned_addresses(given)[i] == a,
        given[i] is None ==> assigned_addresses(given)[i] == unaddressed_before(given.take(i)) as usize,
    decreases given.len(),
{
    lemma_assigned_length(given);
    if i < given.len() - 1 {
        law_unaddressed_numbered_in_order(given.drop_last(), i);
        assert(given.drop_last().take(i) =~= given.take(i));
        assert(given.drop_last()[i] == given[i]);
    } else {
        assert(given.drop_last() =~= given.take(i));
    }
}

/// One address per variable.
proof fn lemma_assigned_length(given: Seq<Option<usize>>)
    ensures
        assigned_addresses(given).len() == given.len(),
    decreases given.len(),
{
    if given.len() > 0 {
        lemma_assigned_length(given.drop_last());
    }
}

} // verus!
