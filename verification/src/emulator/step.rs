//! Running one operation of the MathStack VM on a thread. The operations
//! on the stack, on integers and on environment variables are run here;
//! those that compute with floating-point numbers, use the heap or print
//! are left to the caller, which is told so and finds the thread unchanged.
use vstd::prelude::*;
use crate::emulator::ops::MathStackOperators;
use crate::emulator::instructions::MathStackInstructions;
use crate::emulator::thread_context::{ThreadContext, StackValue, VmError, LoopTracker, spec_push, spec_pop, spec_iterate};
use crate::emulator_heap::{spec_malloc, spec_free, spec_read, spec_write, spec_memcpy, spec_memset, spec_offset_of};

verus! {

/// What running an operation came to.
#[derive(Debug, Clone, Copy, PartialEq, Eq, Structural)]
pub enum StepAction {
    /// The operation was run.
    Done,
    /// The operation computes with floating-point numbers, uses the heap or
    /// prints: the caller runs it. The thread was not changed.
    External,
}

/// Whether a stack value holds a floating-point number.
pub open spec fn is_real(v: StackValue) -> bool {
    v is REAL
}

/// An integer stack value as an unsigned integer (two's complement for a signed one).
pub open spec fn as_u64(v: StackValue) -> u64 {
    match v {
        StackValue::UINT(x) => x,
        StackValue::INT(x) => x as u64,
        StackValue::REAL(x) => x,
    }
}

/// An integer stack value as a signed integer (two's complement for an unsigned one).
pub open spec fn as_i64(v: StackValue) -> i64 {
    match v {
        StackValue::UINT(x) => x as i64,
        StackValue::INT(x) => x,
        StackValue::REAL(x) => x as i64,
    }
}

/// The index of the environment variable an opcode loads (`LDA` to `LDZ0`).
pub open spec fn load_index(op: MathStackOperators) -> Option<int> {
    let code = op.spec_opcode();
    if MathStackOperators::LDA.spec_opcode() <= code <= MathStackOperators::LDZ0.spec_opcode() {
        Some(code - MathStackOperators::LDA.spec_opcode())
    } else {
        None
    }
}

/// The index of the environment variable an opcode stores to (`RCA` to `RCZ`).
pub open spec fn store_index(op: MathStackOperators) -> Option<int> {
    let code = op.spec_opcode();
    if MathStackOperators::RCA.spec_opcode() <= code <= MathStackOperators::RCZ.spec_opcode() {
        Some(code - MathStackOperators::RCA.spec_opcode())
    } else {
        None
    }
}

/// The integer operations of one operand, popped as an unsigned integer.
pub open spec fn is_unary_u64(op: MathStackOperators) -> bool {
    op == MathStackOperators::NOT || op == MathStackOperators::INC || op == MathStackOperators::DEC
}

/// The integer operations of two operands, popped as unsigned integers.
pub open spec fn is_binary_u64(op: MathStackOperators) -> bool {
    ||| op == MathStackOperators::AND
    ||| op == MathStackOperators::NAND
    ||| op == MathStackOperators::OR
    ||| op == MathStackOperators::NOR
    ||| op == MathStackOperators::XOR
    ||| op == MathStackOperators::LSHIFT
    ||| op == MathStackOperators::RSHIFT
}

/// The integer operations of two operands, popped as signed integers.
pub open spec fn is_binary_i64(op: MathStackOperators) -> bool {
    op == MathStackOperators::ADD_PTR || op == MathStackOperators::SUB_PTR || op == MathStackOperators::REM
}

/// The heap operations, with the number of operands each pops.
pub open spec fn heap_arity(op: MathStackOperators) -> int {
    if op == MathStackOperators::MALLOC || op == MathStackOperators::FREE || op == MathStackOperators::READ {
        1
    } else if op == MathStackOperators::WRITE {
        2
    } else if op == MathStackOperators::MEMCPY || op == MathStackOperators::MEMSET {
        3
    } else {
        0
    }
}

/// The operations on the heap.
pub open spec fn is_heap_op(op: MathStackOperators) -> bool {
    heap_arity(op) > 0
}

/// The operations the VM does not implement: running one is an error.
pub open spec fn is_unimplemented(op: MathStackOperators) -> bool {
    ||| op == MathStackOperators::NAN
    ||| op == MathStackOperators::NEARINT
    ||| op == MathStackOperators::NORM
    ||| op == MathStackOperators::NORM3D
    ||| op == MathStackOperators::NORM4D
    ||| op == MathStackOperators::NORMCDF
    ||| op == MathStackOperators::NORMCDFINV
    ||| op == MathStackOperators::RNORM
    ||| op == MathStackOperators::RNORM3D
    ||| op == MathStackOperators::RNORM4D
    ||| op == MathStackOperators::LDPC
    ||| op == MathStackOperators::RCDX
    ||| op == MathStackOperators::RCDY
    ||| op == MathStackOperators::RCDZ
    ||| op == MathStackOperators::RCDT
}

/// The operations that only move stack values.
pub open spec fn is_stack_op(op: MathStackOperators) -> bool {
    ||| op == MathStackOperators::NULL
    ||| op == MathStackOperators::SWAP
    ||| op == MathStackOperators::DUP
    ||| op == MathStackOperators::OVER
    ||| op == MathStackOperators::DROP
    ||| op == MathStackOperators::LDTID
}

/// Whether the top `n` values of the stack (as many as there are) hold no
/// floating-point number.
pub open spec fn top_integers(stack: Seq<StackValue>, n: int) -> bool {
    forall|k: int| stack.len() - n <= k < stack.len() && 0 <= k ==> !is_real(#[trigger] stack[k])
}

/// Whether the library runs `op` on this stack: the stack, integer and
/// environment operations, as long as no operand has to change between a
/// floating-point number and an integer.
pub open spec fn runs_here(op: MathStackOperators, stack: Seq<StackValue>) -> bool {
    ||| is_stack_op(op)
    ||| load_index(op) is Some
    ||| (is_unary_u64(op) && top_integers(stack, 1))
    ||| ((is_binary_u64(op) || is_binary_i64(op)) && top_integers(stack, 2))
    ||| (is_heap_op(op) && top_integers(stack, heap_arity(op)))
    ||| (store_index(op) is Some && !(stack.len() >= 1 && !is_real(stack.last())))
}

/// The inputs on which the operation would overflow or divide by zero.
pub open spec fn overflows(op: MathStackOperators, stack: Seq<StackValue>) -> bool {
    let n = stack.len();
    if n == 0 {
        false
    } else {
        let b = stack[n - 1];
        if op == MathStackOperators::INC {
            as_u64(b) == u64::MAX
        } else if op == MathStackOperators::DEC {
            as_u64(b) == 0
        } else if n < 2 {
            false
        } else {
            let a = stack[n - 2];
            if op == MathStackOperators::LSHIFT || op == MathStackOperators::RSHIFT {
                as_u64(b) >= 64
            } else if op == MathStackOperators::ADD_PTR {
                !(i64::MIN <= as_i64(a) + as_i64(b) <= i64::MAX)
            } else if op == MathStackOperators::SUB_PTR {
                !(i64::MIN <= as_i64(a) - as_i64(b) <= i64::MAX)
            } else if op == MathStackOperators::REM {
                as_i64(b) == 0 || (as_i64(a) == i64::MIN && as_i64(b) == -1)
            } else if n < 3 {
                false
            } else {
                let d = stack[n - 3];
                if op == MathStackOperators::MEMCPY {
                    spec_offset_of(as_u64(d) as usize) + (as_u64(b) as usize) > usize::MAX || spec_offset_of(
                        as_u64(a) as usize,
                    ) + (as_u64(b) as usize) > usize::MAX
                } else if op == MathStackOperators::MEMSET {
                    spec_offset_of(as_u64(d) as usize) + (as_u64(b) as usize) > usize::MAX
                } else {
                    false
                }
            }
        }
    }
}

/// The result of a one-operand unsigned operation.
pub open spec fn unary_u64_result(op: MathStackOperators, a: u64) -> u64 {
    if op == MathStackOperators::NOT {
        !a
    } else if op == MathStackOperators::INC {
        (a + 1) as u64
    } else {
        (a - 1) as u64
    }
}

/// The result of a two-operand unsigned operation, `a` below `b` on the stack.
pub open spec fn binary_u64_result(op: MathStackOperators, a: u64, b: u64) -> u64 {
    if op == MathStackOperators::AND {
        a & b
    } else if op == MathStackOperators::NAND {
        !(a & b)
    } else if op == MathStackOperators::OR {
        a | b
    } else if op == MathStackOperators::NOR {
        !(a | b)
    } else if op == MathStackOperators::XOR {
        a ^ b
    } else if op == MathStackOperators::LSHIFT {
        a << b
    } else {
        a >> b
    }
}

/// The result of a two-operand signed operation, `a` below `b` on the stack
/// (the remainder takes the sign of `a`, as Rust's `%`).
pub open spec fn binary_i64_result(op: MathStackOperators, a: i64, b: i64) -> i64 {
    if op == MathStackOperators::ADD_PTR {
        (a + b) as i64
    } else if op == MathStackOperators::SUB_PTR {
        (a - b) as i64
    } else {
        truncated_rem(a as int, b as int) as i64
    }
}

/// The remainder of `a` by `b` as Rust's `%` gives it: the remainder of
/// their magnitudes, with the sign of `a`.
pub open spec fn truncated_rem(a: int, b: int) -> int {
    let m = (if a < 0 { -a } else { a }) % (if b < 0 { -b } else { b });
    if a < 0 {
        -m
    } else {
        m
    }
}

/// Pops one value then pushes `f` of it; an error stops the step where it happens.
pub open spec fn pop_push(stack: Seq<StackValue>, max: usize, f: spec_fn(StackValue) -> StackValue) -> (Result<(), VmError>, Seq<StackValue>) {
    match spec_pop(stack).0 {
        Err(e) => (Err(e), spec_pop(stack).1),
        Ok(a) => spec_push(spec_pop(stack).1, max, f(a)),
    }
}

/// Pops `b`, then `a`, then pushes `f(a, b)`; an error stops the step where it happens.
pub open spec fn pop2_push(
    stack: Seq<StackValue>,
    max: usize,
    f: spec_fn(StackValue, StackValue) -> StackValue,
) -> (Result<(), VmError>, Seq<StackValue>) {
    match spec_pop(stack).0 {
        Err(e) => (Err(e), spec_pop(stack).1),
        Ok(b) => {
            let s1 = spec_pop(stack).1;
            match spec_pop(s1).0 {
                Err(e) => (Err(e), spec_pop(s1).1),
                Ok(a) => spec_push(spec_pop(s1).1, max, f(a, b)),
            }
        },
    }
}

/// Pushes two values in turn; an error stops the step where it happens.
pub open spec fn push_two(stack: Seq<StackValue>, max: usize, x: StackValue, y: StackValue) -> (Result<(), VmError>, Seq<StackValue>) {
    match spec_push(stack, max, x).0 {
        Err(e) => (Err(e), spec_push(stack, max, x).1),
        Ok(_) => spec_push(spec_push(stack, max, x).1, max, y),
    }
}

/// What an operation run here does to the stack.
pub open spec fn stack_step(op: MathStackOperators, stack: Seq<StackValue>, max: usize, tid: u64) -> (Result<(), VmError>, Seq<StackValue>) {
    if op == MathStackOperators::NULL {
        (Ok(()), stack)
    } else if op == MathStackOperators::SWAP {
        match spec_pop(stack).0 {
            Err(e) => (Err(e), spec_pop(stack).1),
            Ok(b) => {
                let s1 = spec_pop(stack).1;
                match spec_pop(s1).0 {
                    Err(e) => (Err(e), spec_pop(s1).1),
                    Ok(a) => push_two(spec_pop(s1).1, max, b, a),
                }
            },
        }
    } else if op == MathStackOperators::DUP {
        match spec_pop(stack).0 {
            Err(e) => (Err(e), spec_pop(stack).1),
            Ok(a) => push_two(spec_pop(stack).1, max, a, a),
        }
    } else if op == MathStackOperators::OVER {
        if stack.len() > 0 {
            spec_push(stack, max, stack[0])
        } else {
            (Ok(()), stack)
        }
    } else if op == MathStackOperators::DROP {
        (match spec_pop(stack).0 {
            Err(e) => Err(e),
            Ok(_) => Ok(()),
        }, spec_pop(stack).1)
    } else if op == MathStackOperators::LDTID {
        spec_push(stack, max, StackValue::UINT(tid))
    } else if is_unary_u64(op) {
        pop_push(stack, max, |a: StackValue| StackValue::UINT(unary_u64_result(op, as_u64(a))))
    } else if is_binary_u64(op) {
        pop2_push(stack, max, |a: StackValue, b: StackValue| StackValue::UINT(binary_u64_result(op, as_u64(a), as_u64(b))))
    } else {
        pop2_push(stack, max, |a: StackValue, b: StackValue| StackValue::INT(binary_i64_result(op, as_i64(a), as_i64(b))))
    }
}

/// The heap: its regions and the region it allocates next.
pub type HeapView = (Map<u16, Seq<u8>>, u16);

/// A heap outcome as an outcome of the VM.
pub open spec fn heap_outcome(r: Result<(), crate::emulator_heap::HeapError>) -> Result<(), VmError> {
    match r {
        Ok(_) => Ok(()),
        Err(e) => Err(VmError::Heap(e)),
    }
}

/// What a heap operation does: it pops its operands (the last popped is the
/// first argument), calls the heap, and pushes what `MALLOC` and `READ` give.
pub open spec fn heap_step(op: MathStackOperators, stack: Seq<StackValue>, max: usize, heap: HeapView) -> (
    Result<(), VmError>,
    Seq<StackValue>,
    HeapView,
) {
    let p1 = spec_pop(stack);
    match p1.0 {
        Err(e) => (Err(e), p1.1, heap),
        Ok(top) => {
            let s1 = p1.1;
            let t = as_u64(top);
            if op == MathStackOperators::MALLOC {
                let m = spec_malloc(heap.0, heap.1, t as usize);
                match m.0 {
                    Err(e) => (Err(VmError::Heap(e)), s1, (m.1, m.2)),
                    Ok(address) => {
                        let pushed = spec_push(s1, max, StackValue::UINT(address as u64));
                        (pushed.0, pushed.1, (m.1, m.2))
                    },
                }
            } else if op == MathStackOperators::FREE {
                let f = spec_free(heap.0, t as usize);
                (heap_outcome(f.0), s1, (f.1, heap.1))
            } else if op == MathStackOperators::READ {
                match spec_read(heap.0, t as usize) {
                    Err(e) => (Err(VmError::Heap(e)), s1, heap),
                    Ok(v) => {
                        let pushed = spec_push(s1, max, StackValue::UINT(v as u64));
                        (pushed.0, pushed.1, heap)
                    },
                }
            } else {
                let p2 = spec_pop(s1);
                match p2.0 {
                    Err(e) => (Err(e), p2.1, heap),
                    Ok(second) => {
                        let s2 = p2.1;
                        let u = as_u64(second);
                        if op == MathStackOperators::WRITE {
                            let w = spec_write(heap.0, u as usize, t as u8);
                            (heap_outcome(w.0), s2, (w.1, heap.1))
                        } else {
                            let p3 = spec_pop(s2);
                            match p3.0 {
                                Err(e) => (Err(e), p3.1, heap),
                                Ok(third) => {
                                    let d = as_u64(third) as usize;
                                    if op == MathStackOperators::MEMCPY {
                                        let c = spec_memcpy(heap.0, d, u as usize, (t as usize) as int);
                                        (heap_outcome(c.0), p3.1, (c.1, heap.1))
                                    } else {
                                        let c = spec_memset(heap.0, d, u as u8, (t as usize) as int);
                                        (heap_outcome(c.0), p3.1, (c.1, heap.1))
                                    }
                                },
                            }
                        }
                    },
                }
            }
        },
    }
}

/// What running `op` gives: its outcome, the stack and the environment
/// variables after it.
pub open spec fn spec_execute(
    op: MathStackOperators,
    stack: Seq<StackValue>,
    max: usize,
    env: Seq<u64>,
    tid: u64,
    heap: HeapView,
) -> (Result<StepAction, VmError>, Seq<StackValue>, Seq<u64>, HeapView) {
    if is_unimplemented(op) {
        (Err(VmError::UnknownOperation), stack, env, heap)
    } else if !runs_here(op, stack) {
        (Ok(StepAction::External), stack, env, heap)
    } else if load_index(op) is Some {
        let (r, s) = spec_push(stack, max, StackValue::REAL(env[load_index(op).unwrap()]));
        (match r {
            Ok(_) => Ok(StepAction::Done),
            Err(e) => Err(e),
        }, s, env, heap)
    } else if store_index(op) is Some {
        match spec_pop(stack).0 {
            Err(e) => (Err(e), spec_pop(stack).1, env, heap),
            Ok(v) => (Ok(StepAction::Done), spec_pop(stack).1, env.update(store_index(op).unwrap(), as_u64(v)), heap),
        }
    } else if is_heap_op(op) {
        let h = heap_step(op, stack, max, heap);
        (match h.0 {
            Ok(_) => Ok(StepAction::Done),
            Err(e) => Err(e),
        }, h.1, env, h.2)
    } else {
        let (r, s) = stack_step(op, stack, max, tid);
        (match r {
            Ok(_) => Ok(StepAction::Done),
            Err(e) => Err(e),
        }, s, env, heap)
    }
}

/// The operand as an unsigned integer.
fn value_as_u64(v: StackValue) -> (r: u64)
    ensures
        r == as_u64(v),
{
    match v {
        StackValue::UINT(x) => x,
        StackValue::INT(x) => x as u64,
        StackValue::REAL(x) => x,
    }
}

/// The operand as a signed integer.
fn value_as_i64(v: StackValue) -> (r: i64)
    ensures
        r == as_i64(v),
{
    match v {
        StackValue::UINT(x) => x as i64,
        StackValue::INT(x) => x,
        StackValue::REAL(x) => x as i64,
    }
}

/// Whether the top `n` values of the stack hold no floating-point number.
fn top_are_integers(ctx: &ThreadContext, n: usize) -> (r: bool)
    ensures
        r == top_integers(ctx.stack(), n as int),
{
    let len = ctx.get_stack_len();
    let start = if len >= n {
        len - n
    } else {
        0
    };
    let mut k = start;
    while k < len
        invariant
            start <= k <= len,
            len == ctx.stack().len(),
            start as int == (if len >= n { len - n } else { 0 }),
            forall|m: int| start <= m < k ==> !is_real(#[trigger] ctx.stack()[m]),
        decreases len - k,
    {
        match ctx.read_stack(k) {
            Ok(StackValue::REAL(_)) => {
                return false;
            },
            _ => {},
        }
        k = k + 1;
    }
    true
}

/// Runs one operation on a thread (see `spec_execute`). An operation the VM
/// does not implement is an error. Operations that compute with
/// floating-point numbers or print are reported as `External`, with the
/// thread unchanged, for the caller to run.
pub fn execute_op(op: MathStackOperators, ctx: &mut ThreadContext) -> (r: Result<StepAction, VmError>)
    requires
        old(ctx).wf(),
        !(runs_here(op, old(ctx).stack()) && overflows(op, old(ctx).stack())),
    ensures
        final(ctx).wf(),
        (r, final(ctx).stack(), final(ctx).env(), final(ctx).heap_view()) == spec_execute(
            op,
            old(ctx).stack(),
            old(ctx).max_stack(),
            old(ctx).env(),
            old(ctx).thread_id(),
            old(ctx).heap_view(),
        ),
        final(ctx).pc() == old(ctx).pc(),
        final(ctx).max_stack() == old(ctx).max_stack(),
        final(ctx).program() == old(ctx).program(),
        final(ctx).loops() == old(ctx).loops(),
{
    proof {
        ctx.lemma_env_len();
    }
    if matches!(
        op,
        MathStackOperators::NAN | MathStackOperators::NEARINT | MathStackOperators::NORM | MathStackOperators::NORM3D
            | MathStackOperators::NORM4D | MathStackOperators::NORMCDF | MathStackOperators::NORMCDFINV
            | MathStackOperators::RNORM | MathStackOperators::RNORM3D | MathStackOperators::RNORM4D
            | MathStackOperators::LDPC | MathStackOperators::RCDX | MathStackOperators::RCDY | MathStackOperators::RCDZ
            | MathStackOperators::RCDT
    ) {
        return Err(VmError::UnknownOperation);
    }
    let code = op.as_u32();
    let lda = MathStackOperators::LDA.as_u32();
    let ldz0 = MathStackOperators::LDZ0.as_u32();
    let rca = MathStackOperators::RCA.as_u32();
    let rcz = MathStackOperators::RCZ.as_u32();
    let unary = matches!(op, MathStackOperators::NOT | MathStackOperators::INC | MathStackOperators::DEC);
    let binary_u = matches!(
        op,
        MathStackOperators::AND | MathStackOperators::NAND | MathStackOperators::OR | MathStackOperators::NOR
            | MathStackOperators::XOR | MathStackOperators::LSHIFT | MathStackOperators::RSHIFT
    );
    let binary_i = matches!(op, MathStackOperators::ADD_PTR | MathStackOperators::SUB_PTR | MathStackOperators::REM);
    let heap_arity: usize = match op {
        MathStackOperators::MALLOC | MathStackOperators::FREE | MathStackOperators::READ => 1,
        MathStackOperators::WRITE => 2,
        MathStackOperators::MEMCPY | MathStackOperators::MEMSET => 3,
        _ => 0,
    };
    let stack_op = matches!(
        op,
        MathStackOperators::NULL | MathStackOperators::SWAP | MathStackOperators::DUP | MathStackOperators::OVER
            | MathStackOperators::DROP | MathStackOperators::LDTID
    );
    let len = ctx.get_stack_len();
    let runs = if stack_op || (lda <= code && code <= ldz0) {
        true
    } else if unary {
        top_are_integers(ctx, 1)
    } else if binary_u || binary_i {
        top_are_integers(ctx, 2)
    } else if heap_arity > 0 {
        top_are_integers(ctx, heap_arity)
    } else if rca <= code && code <= rcz {
        if len >= 1 {
            match ctx.read_stack(len - 1) {
                Ok(StackValue::REAL(_)) => true,
                _ => false,
            }
        } else {
            true
        }
    } else {
        false
    };
    assert(runs == runs_here(op, old(ctx).stack()));
    if !runs {
        return Ok(StepAction::External);
    }
    if lda <= code && code <= ldz0 {
        let index = (code - lda) as usize;
        let value = match ctx.get_env_var(index) {
            Ok(v) => v,
            Err(e) => {
                return Err(e);
            },
        };
        return match ctx.push(StackValue::REAL(value)) {
            Ok(()) => Ok(StepAction::Done),
            Err(e) => Err(e),
        };
    }
    if rca <= code && code <= rcz {
        let index = (code - rca) as usize;
        let v = match ctx.pop() {
            Ok(v) => v,
            Err(e) => {
                return Err(e);
            },
        };
        let _ = ctx.set_env_var(index, value_as_u64(v));
        return Ok(StepAction::Done);
    }
    if heap_arity > 0 {
        return match run_heap_op(op, ctx) {
            Ok(()) => Ok(StepAction::Done),
            Err(e) => Err(e),
        };
    }
    let outcome = run_stack_step(op, ctx);
    match outcome {
        Ok(()) => Ok(StepAction::Done),
        Err(e) => Err(e),
    }
}

/// Runs a stack, thread-id or integer operation (see `stack_step`).
fn run_stack_step(op: MathStackOperators, ctx: &mut ThreadContext) -> (r: Result<(), VmError>)
    requires
        old(ctx).wf(),
        is_stack_op(op) || is_unary_u64(op) || is_binary_u64(op) || is_binary_i64(op),
        !overflows(op, old(ctx).stack()),
    ensures
        final(ctx).wf(),
        (r, final(ctx).stack()) == stack_step(op, old(ctx).stack(), old(ctx).max_stack(), old(ctx).thread_id()),
        final(ctx).env() == old(ctx).env(),
        final(ctx).heap_view() == old(ctx).heap_view(),
        final(ctx).pc() == old(ctx).pc(),
        final(ctx).max_stack() == old(ctx).max_stack(),
        final(ctx).program() == old(ctx).program(),
        final(ctx).loops() == old(ctx).loops(),
{
    match op {
        MathStackOperators::NULL => Ok(()),
        MathStackOperators::SWAP => {
            let b = ctx.pop()?;
            let a = ctx.pop()?;
            ctx.push(b)?;
            ctx.push(a)
        },
        MathStackOperators::DUP => {
            let a = ctx.pop()?;
            ctx.push(a)?;
            ctx.push(a)
        },
        MathStackOperators::OVER => {
            if ctx.get_stack_len() > 0 {
                let bottom = match ctx.read_stack(0) {
                    Ok(v) => v,
                    Err(e) => {
                        return Err(e);
                    },
                };
                ctx.push(bottom)
            } else {
                Ok(())
            }
        },
        MathStackOperators::DROP => {
            let _ = ctx.pop()?;
            Ok(())
        },
        MathStackOperators::LDTID => {
            let tid = ctx.get_thread_id();
            ctx.push(StackValue::UINT(tid))
        },
        MathStackOperators::NOT | MathStackOperators::INC | MathStackOperators::DEC => run_unary(op, ctx),
        MathStackOperators::ADD_PTR | MathStackOperators::SUB_PTR | MathStackOperators::REM => run_binary_i64(op, ctx),
        _ => run_binary_u64(op, ctx),
    }
}

/// Runs a heap operation (see `heap_step`).
fn run_heap_op(op: MathStackOperators, ctx: &mut ThreadContext) -> (r: Result<(), VmError>)
    requires
        old(ctx).wf(),
        is_heap_op(op),
        !overflows(op, old(ctx).stack()),
    ensures
        final(ctx).wf(),
        (r, final(ctx).stack(), final(ctx).heap_view()) == heap_step(
            op,
            old(ctx).stack(),
            old(ctx).max_stack(),
            old(ctx).heap_view(),
        ),
        final(ctx).env() == old(ctx).env(),
        final(ctx).pc() == old(ctx).pc(),
        final(ctx).max_stack() == old(ctx).max_stack(),
        final(ctx).program() == old(ctx).program(),
        final(ctx).loops() == old(ctx).loops(),
{
    let t = value_as_u64(ctx.pop()?);
    match op {
        MathStackOperators::MALLOC => match ctx.heap_malloc(t as usize) {
            Ok(address) => ctx.push(StackValue::UINT(address as u64)),
            Err(e) => Err(VmError::Heap(e)),
        },
        MathStackOperators::FREE => match ctx.heap_free(t as usize) {
            Ok(()) => Ok(()),
            Err(e) => Err(VmError::Heap(e)),
        },
        MathStackOperators::READ => match ctx.heap_read(t as usize) {
            Ok(v) => ctx.push(StackValue::UINT(v as u64)),
            Err(e) => Err(VmError::Heap(e)),
        },
        MathStackOperators::WRITE => {
            let u = value_as_u64(ctx.pop()?);
            match ctx.heap_write(u as usize, t as u8) {
                Ok(()) => Ok(()),
                Err(e) => Err(VmError::Heap(e)),
            }
        },
        _ => {
            let u = value_as_u64(ctx.pop()?);
            let d = value_as_u64(ctx.pop()?) as usize;
            let outcome = match op {
                MathStackOperators::MEMCPY => ctx.heap_memcpy(d, u as usize, t as usize),
                _ => ctx.heap_memset(d, u as u8, t as usize),
            };
            match outcome {
                Ok(()) => Ok(()),
                Err(e) => Err(VmError::Heap(e)),
            }
        },
    }
}

/// Runs `NOT`, `INC` or `DEC`.
fn run_unary(op: MathStackOperators, ctx: &mut ThreadContext) -> (r: Result<(), VmError>)
    requires
        old(ctx).wf(),
        is_unary_u64(op),
        !overflows(op, old(ctx).stack()),
    ensures
        final(ctx).wf(),
        (r, final(ctx).stack()) == pop_push(
            old(ctx).stack(),
            old(ctx).max_stack(),
            |a: StackValue| StackValue::UINT(unary_u64_result(op, as_u64(a))),
        ),
        final(ctx).env() == old(ctx).env(),
        final(ctx).heap_view() == old(ctx).heap_view(),
        final(ctx).pc() == old(ctx).pc(),
        final(ctx).max_stack() == old(ctx).max_stack(),
        final(ctx).program() == old(ctx).program(),
        final(ctx).loops() == old(ctx).loops(),
{
    let a = value_as_u64(ctx.pop()?);
    let result = match op {
        MathStackOperators::NOT => !a,
        MathStackOperators::INC => a + 1,
        _ => a - 1,
    };
    assert(result == unary_u64_result(op, a));
    ctx.push(StackValue::UINT(result))
}

/// Runs `ADD_PTR`, `SUB_PTR` or `REM`.
fn run_binary_i64(op: MathStackOperators, ctx: &mut ThreadContext) -> (r: Result<(), VmError>)
    requires
        old(ctx).wf(),
        is_binary_i64(op),
        !overflows(op, old(ctx).stack()),
    ensures
        final(ctx).wf(),
        (r, final(ctx).stack()) == pop2_push(
            old(ctx).stack(),
            old(ctx).max_stack(),
            |a: StackValue, b: StackValue| StackValue::INT(binary_i64_result(op, as_i64(a), as_i64(b))),
        ),
        final(ctx).env() == old(ctx).env(),
        final(ctx).heap_view() == old(ctx).heap_view(),
        final(ctx).pc() == old(ctx).pc(),
        final(ctx).max_stack() == old(ctx).max_stack(),
        final(ctx).program() == old(ctx).program(),
        final(ctx).loops() == old(ctx).loops(),
{
    let b = value_as_i64(ctx.pop()?);
    let a = value_as_i64(ctx.pop()?);
    let result = match op {
        MathStackOperators::ADD_PTR => a + b,
        MathStackOperators::SUB_PTR => a - b,
        _ => signed_rem(a, b),
    };
    assert(result == binary_i64_result(op, a, b));
    ctx.push(StackValue::INT(result))
}

/// Rust's `%` on signed integers, through the magnitudes.
fn signed_rem(a: i64, b: i64) -> (r: i64)
    requires
        b != 0,
        !(a == i64::MIN && b == -1),
    ensures
        r == truncated_rem(a as int, b as int),
{
    let ua: u64 = if a < 0 {
        (0 - (a as i128)) as u64
    } else {
        a as u64
    };
    let ub: u64 = if b < 0 {
        (0 - (b as i128)) as u64
    } else {
        b as u64
    };
    let m = ua % ub;
    assert(m < ub);
    if a < 0 {
        0 - (m as i64)
    } else {
        m as i64
    }
}

/// Runs `AND`, `NAND`, `OR`, `NOR`, `XOR`, `LSHIFT` or `RSHIFT`.
fn run_binary_u64(op: MathStackOperators, ctx: &mut ThreadContext) -> (r: Result<(), VmError>)
    requires
        old(ctx).wf(),
        is_binary_u64(op),
        !overflows(op, old(ctx).stack()),
    ensures
        final(ctx).wf(),
        (r, final(ctx).stack()) == pop2_push(
            old(ctx).stack(),
            old(ctx).max_stack(),
            |a: StackValue, b: StackValue| StackValue::UINT(binary_u64_result(op, as_u64(a), as_u64(b))),
        ),
        final(ctx).env() == old(ctx).env(),
        final(ctx).heap_view() == old(ctx).heap_view(),
        final(ctx).pc() == old(ctx).pc(),
        final(ctx).max_stack() == old(ctx).max_stack(),
        final(ctx).program() == old(ctx).program(),
        final(ctx).loops() == old(ctx).loops(),
{
    let b = value_as_u64(ctx.pop()?);
    let a = value_as_u64(ctx.pop()?);
    let result = match op {
        MathStackOperators::AND => a & b,
        MathStackOperators::NAND => !(a & b),
        MathStackOperators::OR => a | b,
        MathStackOperators::NOR => !(a | b),
        MathStackOperators::XOR => a ^ b,
        MathStackOperators::LSHIFT => a << b,
        _ => a >> b,
    };
    assert(result == binary_u64_result(op, a, b));
    ctx.push(StackValue::UINT(result))
}

/// The outcome of a step: what it came to, then the stack, the
/// environment variables, the program counter and the loops after it.
pub type StepState = (Result<StepAction, VmError>, Seq<StackValue>, Seq<u64>, usize, Seq<LoopTracker>, HeapView);

/// A jump to `target`: refused beyond the end of a program of `n` instructions.
pub open spec fn spec_jump(
    stack: Seq<StackValue>,
    env: Seq<u64>,
    pc: usize,
    loops: Seq<LoopTracker>,
    heap: HeapView,
    n: nat,
    target: usize,
) -> StepState {
    if target <= n {
        (Ok(StepAction::Done), stack, env, target, loops, heap)
    } else {
        (Err(VmError::ProgramCounterOutOfRange), stack, env, pc, loops, heap)
    }
}

/// What running the current instruction of a thread gives. Instructions run
/// from the end of the instruction list; at the end of the program nothing
/// happens. A step that is left to the caller (`External`) changes nothing.
pub open spec fn spec_step(c: ThreadContext) -> StepState {
    let n = c.program().spec_instructions().len();
    let pc = c.pc();
    let stack = c.stack();
    let env = c.env();
    let loops = c.loops();
    let max = c.max_stack();
    let heap = c.heap_view();
    if pc >= n {
        (Ok(StepAction::Done), stack, env, pc, loops, heap)
    } else {
        let k = n - 1 - pc;
        match c.program().spec_instructions()[k] {
            MathStackInstructions::VALUE => {
                let pushed = spec_push(stack, max, StackValue::REAL(c.program().spec_values()[k]));
                match pushed.0 {
                    Ok(_) => (Ok(StepAction::Done), pushed.1, env, (pc + 1) as usize, loops, heap),
                    Err(e) => (Err(e), pushed.1, env, pc, loops, heap),
                }
            },
            MathStackInstructions::OP => {
                let run = spec_execute(c.program().spec_operations()[k], stack, max, env, c.thread_id(), heap);
                (run.0, run.1, run.2, if run.0 == Ok::<StepAction, VmError>(StepAction::Done) {
                    (pc + 1) as usize
                } else {
                    pc
                }, loops, run.3)
            },
            MathStackInstructions::GOTO => if !top_integers(stack, 1) {
                (Ok(StepAction::External), stack, env, pc, loops, heap)
            } else {
                match spec_pop(stack).0 {
                    Err(e) => (Err(e), spec_pop(stack).1, env, pc, loops, heap),
                    Ok(v) => spec_jump(spec_pop(stack).1, env, pc, loops, heap, n, as_i64(v) as usize),
                }
            },
            MathStackInstructions::GOTO_IF => if !top_integers(stack, 2) {
                (Ok(StepAction::External), stack, env, pc, loops, heap)
            } else {
                match spec_pop(stack).0 {
                    Err(e) => (Err(e), spec_pop(stack).1, env, pc, loops, heap),
                    Ok(b) => {
                        let s1 = spec_pop(stack).1;
                        match spec_pop(s1).0 {
                            Err(e) => (Err(e), spec_pop(s1).1, env, pc, loops, heap),
                            Ok(a) => if as_i64(a) == 0 {
                                spec_jump(spec_pop(s1).1, env, pc, loops, heap, n, as_i64(b) as usize)
                            } else {
                                (Ok(StepAction::Done), spec_pop(s1).1, env, (pc + 1) as usize, loops, heap)
                            },
                        }
                    },
                }
            },
            MathStackInstructions::LOOP_ENTRY => if !top_integers(stack, 2) {
                (Ok(StepAction::External), stack, env, pc, loops, heap)
            } else {
                match spec_pop(stack).0 {
                    Err(e) => (Err(e), spec_pop(stack).1, env, pc, loops, heap),
                    Ok(b) => {
                        let s1 = spec_pop(stack).1;
                        match spec_pop(s1).0 {
                            Err(e) => (Err(e), spec_pop(s1).1, env, pc, loops, heap),
                            Ok(a) => (
                                Ok(StepAction::Done),
                                spec_pop(s1).1,
                                env,
                                (pc + 1) as usize,
                                loops.push(LoopTracker::spec_new(as_i64(a), as_i64(b), pc)),
                                heap,
                            ),
                        }
                    },
                }
            },
            MathStackInstructions::LOOP_END => {
                let it = spec_iterate(loops, pc, n);
                match it.0 {
                    Ok(_) => (Ok(StepAction::Done), stack, env, (it.2 + 1) as usize, it.1, heap),
                    Err(e) => (Err(e), stack, env, it.2, it.1, heap),
                }
            },
            MathStackInstructions::FUNC_POINTER(_) => (Err(VmError::UnknownInstruction), stack, env, pc, loops, heap),
        }
    }
}

/// What a step needs so that it does not overflow: a program shorter than
/// the largest program counter, an operation that does not overflow, and a
/// loop counter below its largest value.
pub open spec fn step_fits(c: ThreadContext) -> bool {
    let n = c.program().spec_instructions().len();
    &&& n < usize::MAX
    &&& c.pc() < n ==> {
        let k = n - 1 - c.pc();
        &&& c.program().spec_instructions()[k] == MathStackInstructions::OP ==> {
            let op = c.program().spec_operations()[k];
            !(runs_here(op, c.stack()) && overflows(op, c.stack()))
        }
        &&& c.program().spec_instructions()[k] == MathStackInstructions::LOOP_END && c.loops().len() > 0
            ==> c.loops().last().spec_current() < i64::MAX
    }
}

/// Runs the current instruction of a thread (see `spec_step`). A `VALUE`
/// loads its value, an `OP` runs its operation (see `execute_op`), `GOTO`
/// and `GOTO_IF` jump to an integer address, `LOOP_ENTRY` starts a loop whose
/// body follows it and `LOOP_END` counts an iteration. Where an operand
/// would have to change between a floating-point number and an integer, or
/// an operation is left to the caller, the step reports `External` and
/// changes nothing; the caller runs the instruction, then moves on.
pub fn step(ctx: &mut ThreadContext) -> (r: Result<StepAction, VmError>)
    requires
        old(ctx).wf(),
        step_fits(*old(ctx)),
    ensures
        final(ctx).wf(),
        (r, final(ctx).stack(), final(ctx).env(), final(ctx).pc(), final(ctx).loops(), final(ctx).heap_view())
            == spec_step(*old(ctx)),
        final(ctx).max_stack() == old(ctx).max_stack(),
        final(ctx).program() == old(ctx).program(),
{
    proof {
        ctx.lemma_env_len();
    }
    let n = ctx.get_instructions().len();
    let pc = ctx.get_pc();
    if pc >= n {
        return Ok(StepAction::Done);
    }
    match ctx.get_instruction() {
        MathStackInstructions::VALUE => {
            let value = ctx.get_value();
            match ctx.push(StackValue::REAL(value)) {
                Ok(()) => {
                    ctx.step_pc();
                    Ok(StepAction::Done)
                },
                Err(e) => Err(e),
            }
        },
        MathStackInstructions::OP => {
            let op = ctx.get_operation();
            let r = execute_op(op, ctx);
            if let Ok(StepAction::Done) = r {
                ctx.step_pc();
            }
            r
        },
        MathStackInstructions::GOTO => {
            if !top_are_integers(ctx, 1) {
                return Ok(StepAction::External);
            }
            let v = match ctx.pop() {
                Ok(v) => v,
                Err(e) => {
                    return Err(e);
                },
            };
            match ctx.set_pc(value_as_i64(v) as usize) {
                Ok(()) => Ok(StepAction::Done),
                Err(e) => Err(e),
            }
        },
        MathStackInstructions::GOTO_IF => {
            if !top_are_integers(ctx, 2) {
                return Ok(StepAction::External);
            }
            let b = match ctx.pop() {
                Ok(v) => v,
                Err(e) => {
                    return Err(e);
                },
            };
            let a = match ctx.pop() {
                Ok(v) => v,
                Err(e) => {
                    return Err(e);
                },
            };
            if value_as_i64(a) == 0 {
                match ctx.set_pc(value_as_i64(b) as usize) {
                    Ok(()) => Ok(StepAction::Done),
                    Err(e) => Err(e),
                }
            } else {
                ctx.step_pc();
                Ok(StepAction::Done)
            }
        },
        MathStackInstructions::LOOP_ENTRY => {
            if !top_are_integers(ctx, 2) {
                return Ok(StepAction::External);
            }
            let b = match ctx.pop() {
                Ok(v) => v,
                Err(e) => {
                    return Err(e);
                },
            };
            let a = match ctx.pop() {
                Ok(v) => v,
                Err(e) => {
                    return Err(e);
                },
            };
            ctx.enter_loop(LoopTracker::new(value_as_i64(a), value_as_i64(b), pc));
            ctx.step_pc();
            Ok(StepAction::Done)
        },
        MathStackInstructions::LOOP_END => {
            match ctx.iterate_loop() {
                Ok(()) => {
                    ctx.step_pc();
                    Ok(StepAction::Done)
                },
                Err(e) => Err(e),
            }
        },
        MathStackInstructions::FUNC_POINTER(_) => Err(VmError::UnknownInstruction),
    }
}


/// The bitwise integer operations: with unsigned integers `a` below `b` on
/// top of the stack, `AND`, `NAND`, `OR`, `NOR` and `XOR` replace the two by
/// one unsigned integer, `a & b`, `!(a & b)`, `a | b`, `!(a | b)` and `a ^ b`,
/// and leave the rest of the stack, the environment and the heap as they were.
pub proof fn law_bitwise_operations(
    op: MathStackOperators,
    rest: Seq<StackValue>,
    a: u64,
    b: u64,
    max: usize,
    env: Seq<u64>,
    tid: u64,
    heap: HeapView,
)
    requires
        rest.len() + 2 <= max,
        op == MathStackOperators::AND || op == MathStackOperators::NAND || op == MathStackOperators::OR
            || op == MathStackOperators::NOR || op == MathStackOperators::XOR,
    ensures
        ({
            let (r, s, e, h) = spec_execute(op, rest.push(StackValue::UINT(a)).push(StackValue::UINT(b)), max, env, tid, heap);
            &&& r == Ok::<StepAction, VmError>(StepAction::Done)
            &&& e == env
            &&& h == heap
            &&& s.len() == rest.len() + 1
            &&& s.drop_last() == rest
            &&& op == MathStackOperators::AND ==> s.last() == StackValue::UINT(a & b)
            &&& op == MathStackOperators::NAND ==> s.last() == StackValue::UINT(!(a & b))
            &&& op == MathStackOperators::OR ==> s.last() == StackValue::UINT(a | b)
            &&& op == MathStackOperators::NOR ==> s.last() == StackValue::UINT(!(a | b))
            &&& op == MathStackOperators::XOR ==> s.last() == StackValue::UINT(a ^ b)
        }),
{
    let stack = rest.push(StackValue::UINT(a)).push(StackValue::UINT(b));
    assert(stack.drop_last() == rest.push(StackValue::UINT(a)));
    assert(stack.drop_last().drop_last() == rest);
    assert(top_integers(stack, 2));
}

/// The one-operand integer operations: with an unsigned integer `a` on top
/// of the stack, `NOT` replaces it by `!a`, `INC` by `a + 1` (below the
/// largest value) and `DEC` by `a - 1` (above zero).
pub proof fn law_unary_integer_operations(
    op: MathStackOperators,
    rest: Seq<StackValue>,
    a: u64,
    max: usize,
    env: Seq<u64>,
    tid: u64,
    heap: HeapView,
)
    requires
        rest.len() + 1 <= max,
        op == MathStackOperators::NOT || op == MathStackOperators::INC || op == MathStackOperators::DEC,
    ensures
        ({
            let (r, s, e, h) = spec_execute(op, rest.push(StackValue::UINT(a)), max, env, tid, heap);
            &&& r == Ok::<StepAction, VmError>(StepAction::Done)
            &&& e == env
            &&& h == heap
            &&& s.len() == rest.len() + 1
            &&& s.drop_last() == rest
            &&& op == MathStackOperators::NOT ==> s.last() == StackValue::UINT(!a)
            &&& (op == MathStackOperators::INC && a < u64::MAX) ==> s.last() == StackValue::UINT((a + 1) as u64)
            &&& (op == MathStackOperators::DEC && a > 0) ==> s.last() == StackValue::UINT((a - 1) as u64)
        }),
{
    let stack = rest.push(StackValue::UINT(a));
    assert(stack.drop_last() == rest);
    assert(top_integers(stack, 1));
}

/// `SWAP` exchanges the two values on top of the stack, and `DUP` loads the
/// top value once more, whatever the values are.
pub proof fn law_swap_and_dup(
    rest: Seq<StackValue>,
    x: StackValue,
    y: StackValue,
    max: usize,
    env: Seq<u64>,
    tid: u64,
    heap: HeapView,
)
    requires
        rest.len() + 3 <= max,
    ensures
        spec_execute(MathStackOperators::SWAP, rest.push(x).push(y), max, env, tid, heap) == (
            Ok::<StepAction, VmError>(StepAction::Done),
            rest.push(y).push(x),
            env,
            heap,
        ),
        spec_execute(MathStackOperators::DUP, rest.push(x), max, env, tid, heap) == (
            Ok::<StepAction, VmError>(StepAction::Done),
            rest.push(x).push(x),
            env,
            heap,
        ),
{
    let s2 = rest.push(x).push(y);
    assert(s2.drop_last() == rest.push(x));
    assert(s2.drop_last().drop_last() == rest);
    assert(rest.push(x).drop_last() == rest);
}


/// The shifts and the signed operations: with unsigned `a` below `b` (less
/// than 64), `LSHIFT` gives `a << b` and `RSHIFT` gives `a >> b`; with signed
/// `x` below `y`, `ADD_PTR` gives `x + y` and `SUB_PTR` gives `x - y` (when
/// they fit), and `REM` gives the remainder `r` of `x` by `y` (not zero):
/// `x - r` is a multiple of `y`, `r` is smaller than `y` in size and has the
/// sign of `x` or is zero.
pub proof fn law_shift_and_signed_operations(
    op: MathStackOperators,
    rest: Seq<StackValue>,
    a: u64,
    b: u64,
    x: i64,
    y: i64,
    max: usize,
    env: Seq<u64>,
    tid: u64,
    heap: HeapView,
)
    requires
        rest.len() + 2 <= max,
    ensures
        (op == MathStackOperators::LSHIFT || op == MathStackOperators::RSHIFT) && b < 64 ==> ({
            let (r, s, e, h) = spec_execute(op, rest.push(StackValue::UINT(a)).push(StackValue::UINT(b)), max, env, tid, heap);
            &&& r == Ok::<StepAction, VmError>(StepAction::Done)
            &&& s == rest.push(StackValue::UINT(if op == MathStackOperators::LSHIFT { a << b } else { a >> b }))
            &&& e == env
            &&& h == heap
        }),
        ({
            let (r, s, e, h) = spec_execute(op, rest.push(StackValue::INT(x)).push(StackValue::INT(y)), max, env, tid, heap);
            &&& (op == MathStackOperators::ADD_PTR && i64::MIN <= x + y <= i64::MAX) ==> r == Ok::<StepAction, VmError>(
                StepAction::Done,
            ) && s == rest.push(StackValue::INT((x + y) as i64)) && e == env && h == heap
            &&& (op == MathStackOperators::SUB_PTR && i64::MIN <= x - y <= i64::MAX) ==> r == Ok::<StepAction, VmError>(
                StepAction::Done,
            ) && s == rest.push(StackValue::INT((x - y) as i64)) && e == env && h == heap
            &&& (op == MathStackOperators::REM && y != 0 && !(x == i64::MIN && y == -1)) ==> {
                &&& r == Ok::<StepAction, VmError>(StepAction::Done)
                &&& e == env
                &&& h == heap
                &&& s.len() == rest.len() + 1
                &&& s.drop_last() == rest
                &&& s.last() matches StackValue::INT(m) && (x - m) % (if y < 0 { -y } else { y as int }) == 0
                    && (if y < 0 { -m < -y } else { m < y }) && (if y < 0 { m < -y } else { -m < y })
                    && (m == 0 || (m < 0) == (x < 0))
            }
        }),
{
    let su = rest.push(StackValue::UINT(a)).push(StackValue::UINT(b));
    assert(su.drop_last() == rest.push(StackValue::UINT(a)));
    assert(su.drop_last().drop_last() == rest);
    assert(top_integers(su, 2));
    let si = rest.push(StackValue::INT(x)).push(StackValue::INT(y));
    assert(si.drop_last() == rest.push(StackValue::INT(x)));
    assert(si.drop_last().drop_last() == rest);
    assert(top_integers(si, 2));
    if op == MathStackOperators::REM && y != 0 && !(x == i64::MIN && y == -1) {
        let xa: int = if x < 0 { -x } else { x as int };
        let ya: int = if y < 0 { -y } else { y as int };
        let m0 = xa % ya;
        assert(0 <= m0 < ya) by (nonlinear_arith)
            requires
                ya > 0,
                m0 == xa % ya,
        ;
        vstd::arithmetic::div_mod::lemma_fundamental_div_mod(xa, ya);
        let q = xa / ya;
        let k: int = if x < 0 { -q } else { q };
        let m = truncated_rem(x as int, y as int);
        assert(x - m == k * ya) by (nonlinear_arith)
            requires
                xa == ya * q + m0,
                xa == (if x < 0 { -x } else { x as int }),
                m == (if x < 0 { -m0 } else { m0 }),
                k == (if x < 0 { -q } else { q }),
        ;
        vstd::arithmetic::div_mod::lemma_mod_multiples_basic(k, ya);
    }
}

} // verus!
