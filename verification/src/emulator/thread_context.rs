//! The state of one thread of the MathStack VM: its program, program
//! counter, stack, environment variables, heap and loop counters. Numbers
//! are held as the 64-bit patterns of their values.
use vstd::prelude::*;
use crate::emulator::ops::MathStackOperators;
use crate::emulator::instructions::MathStackInstructions;
use crate::emulator_heap::{EmulatorHeap, HeapError, spec_malloc, spec_free, spec_read, spec_write, spec_memcpy, spec_memset, spec_offset_of};
use crate::program_code::{can_pad, padded, aligned_list, count_before, lemma_count_before_monotone};
use crate::text::chars_to_string;

verus! {

/// The number of environment variables, one per load operation `LDA` to `LDZ0`.
pub const ENV_VAR_COUNT: usize = 56;

/// A loop being run: the current iteration, the exclusive bound, and the
/// program counter the loop jumps back to.
#[derive(Debug, Clone, Copy, PartialEq, Eq, Structural)]
pub struct LoopTracker {
    current: i64,
    max: i64,
    loop_start: usize,
}

impl LoopTracker {
    /// The current iteration.
    pub closed spec fn spec_current(&self) -> i64 {
        self.current
    }

    /// The exclusive bound of the iterations.
    pub closed spec fn spec_max(&self) -> i64 {
        self.max
    }

    /// The program counter of the start of the loop body.
    pub closed spec fn spec_loop_start(&self) -> usize {
        self.loop_start
    }

    /// The tracker one iteration further.
    pub closed spec fn advanced(self) -> LoopTracker {
        LoopTracker { current: (self.current + 1) as i64, ..self }
    }

    /// One iteration further, the bound and start are the same.
    pub proof fn lemma_advanced(self)
        requires
            self.spec_current() < i64::MAX,
        ensures
            self.advanced().spec_current() == self.spec_current() + 1,
            self.advanced().spec_max() == self.spec_max(),
            self.advanced().spec_loop_start() == self.spec_loop_start(),
    {
    }

    /// The tracker of a loop from `start` up to `end` (exclusive) whose body
    /// starts after `loop_start`.
    pub closed spec fn spec_new(start: i64, end: i64, loop_start: usize) -> LoopTracker {
        LoopTracker { current: start, max: end, loop_start }
    }

    /// A loop from `start` up to `end` (exclusive) whose body starts at `loop_start`.
    pub fn new(start: i64, end: i64, loop_start: usize) -> (r: Self)
        ensures
            r == Self::spec_new(start, end, loop_start),
            r.spec_current() == start,
            r.spec_max() == end,
            r.spec_loop_start() == loop_start,
    {
        LoopTracker { current: start, max: end, loop_start }
    }

    /// The current iteration.
    pub fn current(&self) -> (r: i64)
        ensures
            r == self.spec_current(),
    {
        self.current
    }

    /// The exclusive bound of the iterations.
    pub fn max(&self) -> (r: i64)
        ensures
            r == self.spec_max(),
    {
        self.max
    }

    /// The program counter of the start of the loop body.
    pub fn loop_start(&self) -> (r: usize)
        ensures
            r == self.spec_loop_start(),
    {
        self.loop_start
    }
}

/// A value on the stack of the VM, with the representation it has there: a
/// floating-point number (by its bit pattern), or an unsigned or signed integer.
#[derive(Debug, Clone, Copy, PartialEq, Eq, Structural)]
pub enum StackValue {
    REAL(u64),
    UINT(u64),
    INT(i64),
}

/// Why the VM refused a step.
#[derive(Debug, Clone, Copy, PartialEq, Eq, Structural)]
pub enum VmError {
    /// A push to a full stack.
    StackFull,
    /// A pop from an empty stack.
    StackEmpty,
    /// A read or write of a stack slot that does not exist.
    InvalidStackAddress,
    /// A program counter beyond the end of the program.
    ProgramCounterOutOfRange,
    /// A loop step with no loop running.
    NoLoopCounter,
    /// An environment variable that does not exist.
    NoSuchEnvVar,
    /// An instruction the VM does not run.
    UnknownInstruction,
    /// An operation the VM does not implement.
    UnknownOperation,
    /// A heap operation failed.
    Heap(HeapError),
}

/// The tables of a MathStack program, aligned so that one program counter
/// indexes all three.
#[derive(Debug)]
pub struct ProgramCode {
    values: Vec<u64>,
    operations: Vec<MathStackOperators>,
    instructions: Vec<MathStackInstructions>,
}

impl ProgramCode {
    /// The values loaded by VALUE instructions.
    pub closed spec fn spec_values(&self) -> Seq<u64> {
        self.values@
    }

    /// The operations run by OP instructions.
    pub closed spec fn spec_operations(&self) -> Seq<MathStackOperators> {
        self.operations@
    }

    /// The instructions.
    pub closed spec fn spec_instructions(&self) -> Seq<MathStackInstructions> {
        self.instructions@
    }

    /// The three tables have one entry per instruction.
    pub open spec fn aligned(&self) -> bool {
        &&& self.spec_values().len() == self.spec_instructions().len()
        &&& self.spec_operations().len() == self.spec_instructions().len()
    }

    /// Program code whose value and operation lists are padded to the instructions.
    pub fn new(values: Vec<u64>, operations: Vec<MathStackOperators>, instructions: Vec<MathStackInstructions>) -> (r: Self)
        requires
            can_pad(instructions@, MathStackInstructions::VALUE, values@),
            can_pad(instructions@, MathStackInstructions::OP, operations@),
        ensures
            r.aligned(),
            r.spec_values() == padded(instructions@, MathStackInstructions::VALUE, values@, 0u64),
            r.spec_operations() == padded(instructions@, MathStackInstructions::OP, operations@, MathStackOperators::NULL),
            r.spec_instructions() == instructions@,
    {
        let values = Self::pad_list_to_size_of_instructions(MathStackInstructions::VALUE, &instructions, &values, 0u64);
        let operations = Self::pad_list_to_size_of_instructions(
            MathStackInstructions::OP,
            &instructions,
            &operations,
            MathStackOperators::NULL,
        );
        ProgramCode { values, operations, instructions }
    }

    /// Pads a value or operation list to the instructions: each element lands
    /// where `alignment_instr` occurs, `null_value` everywhere else. A list
    /// that already has the length of the instructions is kept as it is.
    pub fn pad_list_to_size_of_instructions<T: Copy>(
        alignment_instr: MathStackInstructions,
        instructions: &Vec<MathStackInstructions>,
        unaligned_list: &Vec<T>,
        null_value: T,
    ) -> (r: Vec<T>)
        requires
            can_pad(instructions@, alignment_instr, unaligned_list@),
        ensures
            r@ == padded(instructions@, alignment_instr, unaligned_list@, null_value),
            r@.len() == instructions@.len(),
    {
        if instructions.len() == unaligned_list.len() {
            let mut copy: Vec<T> = Vec::new();
            let mut k: usize = 0;
            while k < unaligned_list.len()
                invariant
                    k <= unaligned_list@.len(),
                    copy@ == unaligned_list@.take(k as int),
                decreases unaligned_list@.len() - k,
            {
                copy.push(unaligned_list[k]);
                assert(unaligned_list@.take(k as int).push(unaligned_list@[k as int]) =~= unaligned_list@.take(k + 1));
                k = k + 1;
            }
            assert(unaligned_list@.take(unaligned_list@.len() as int) =~= unaligned_list@);
            return copy;
        }
        let ghost target = aligned_list(instructions@, alignment_instr, unaligned_list@, null_value);
        let list_len = unaligned_list.len();
        let mut aligned: Vec<T> = Vec::new();
        let mut unaligned_index: usize = 0;
        let mut i: usize = 0;
        while i < instructions.len()
            invariant
                instructions@.len() != unaligned_list@.len(),
                list_len == unaligned_list@.len(),
                count_before(instructions@, alignment_instr, instructions@.len() as int) <= unaligned_list@.len(),
                i <= instructions@.len(),
                unaligned_index == count_before(instructions@, alignment_instr, i as int),
                target == aligned_list(instructions@, alignment_instr, unaligned_list@, null_value),
                aligned@ == target.take(i as int),
            decreases instructions@.len() - i,
        {
            let instr = instructions[i];
            proof {
                lemma_count_before_monotone(instructions@, alignment_instr, i + 1, instructions@.len() as int);
            }
            if instr == alignment_instr {
                assert(count_before(instructions@, alignment_instr, i + 1) == unaligned_index + 1);
                assert(unaligned_index + 1 <= unaligned_list@.len());
                aligned.push(unaligned_list[unaligned_index]);
                unaligned_index = unaligned_index + 1;
            } else {
                aligned.push(null_value);
            }
            assert(aligned@ =~= target.take(i + 1));
            i = i + 1;
        }
        assert(target.take(instructions@.len() as int) =~= target);
        aligned
    }
}

/// What pushing a value gives: the value on top, or `StackFull` when the
/// stack already holds `max_size` values.
pub open spec fn spec_push(stack: Seq<StackValue>, max_size: usize, value: StackValue) -> (Result<(), VmError>, Seq<StackValue>) {
    if stack.len() < max_size {
        (Ok(()), stack.push(value))
    } else {
        (Err(VmError::StackFull), stack)
    }
}

/// What popping gives: the top value, or `StackEmpty`.
pub open spec fn spec_pop(stack: Seq<StackValue>) -> (Result<StackValue, VmError>, Seq<StackValue>) {
    if stack.len() == 0 {
        (Err(VmError::StackEmpty), stack)
    } else {
        (Ok(stack.last()), stack.drop_last())
    }
}

/// What counting one more iteration of the innermost loop gives, for a
/// program of `n` instructions: the outcome, the loops and the program counter.
pub open spec fn spec_iterate(loops: Seq<LoopTracker>, pc: usize, n: nat) -> (Result<(), VmError>, Seq<LoopTracker>, usize) {
    if loops.len() == 0 {
        (Err(VmError::NoLoopCounter), loops, pc)
    } else {
        let counter = loops.last();
        if counter.spec_current() + 1 >= counter.spec_max() {
            (Ok(()), loops.drop_last(), pc)
        } else if counter.spec_loop_start() <= n {
            (Ok(()), loops.drop_last().push(counter.advanced()), counter.spec_loop_start())
        } else {
            (Err(VmError::ProgramCounterOutOfRange), loops.drop_last().push(counter.advanced()), pc)
        }
    }
}

/// A stack resized to `n` values: cut, or filled with unsigned zeros.
pub open spec fn resized(stack: Seq<StackValue>, n: nat) -> Seq<StackValue> {
    Seq::new(n, |i: int| if i < stack.len() { stack[i] } else { StackValue::UINT(0) })
}

/// The name of environment variable `var_id`: the name of its load
/// operation without the leading `LD`.
pub open spec fn env_var_name(var_id: usize) -> Seq<char> {
    match MathStackOperators::spec_from_u32((MathStackOperators::LDA.spec_opcode() + var_id) as u32) {
        Some(op) => op.spec_name().skip(2),
        None => Seq::empty(),
    }
}

/// The state of one thread of the VM.
#[derive(Debug)]
pub struct ThreadContext {
    thread_id: u64,
    program_counter: usize,
    stack_maxsize: usize,
    env_vars: Vec<u64>,
    program_code: ProgramCode,
    stack: Vec<StackValue>,
    heap: EmulatorHeap,
    loop_counters: Vec<LoopTracker>,
}

impl ThreadContext {
    /// The program counter: how many instructions from the end of the
    /// instruction list execution has reached.
    pub closed spec fn pc(&self) -> usize {
        self.program_counter
    }

    /// The id of the thread.
    pub closed spec fn thread_id(&self) -> u64 {
        self.thread_id
    }

    /// The largest number of values the stack may hold.
    pub closed spec fn max_stack(&self) -> usize {
        self.stack_maxsize
    }

    /// The environment variables.
    pub closed spec fn env(&self) -> Seq<u64> {
        self.env_vars@
    }

    /// The program.
    pub closed spec fn program(&self) -> &ProgramCode {
        &self.program_code
    }

    /// The stack, bottom first.
    pub closed spec fn stack(&self) -> Seq<StackValue> {
        self.stack@
    }

    /// The loops being run, innermost last.
    pub closed spec fn loops(&self) -> Seq<LoopTracker> {
        self.loop_counters@
    }

    /// The heap: its regions and the region it allocates next.
    pub closed spec fn heap_view(&self) -> (Map<u16, Seq<u8>>, u16) {
        (self.heap.regions(), self.heap.next_region())
    }

    /// Well-formedness: one slot per environment variable, an aligned
    /// program and a well-formed heap.
    pub closed spec fn wf(&self) -> bool {
        &&& self.env_vars@.len() == ENV_VAR_COUNT
        &&& self.program_code.aligned()
        &&& self.heap.wf()
    }

    /// A well-formed thread has one slot per environment variable and an
    /// aligned program.
    pub proof fn lemma_env_len(&self)
        requires
            self.wf(),
        ensures
            self.env().len() == ENV_VAR_COUNT,
            self.program().aligned(),
    {
    }

    /// A thread at the start of a program given by its tables, with an
    /// empty stack, zeroed environment variables and an empty heap.
    pub fn new(
        stack_size: usize,
        values: Vec<u64>,
        operations: Vec<MathStackOperators>,
        instructions: Vec<MathStackInstructions>,
    ) -> (r: Self)
        requires
            can_pad(instructions@, MathStackInstructions::VALUE, values@),
            can_pad(instructions@, MathStackInstructions::OP, operations@),
        ensures
            r.wf(),
            r.pc() == 0,
            r.max_stack() == stack_size,
            r.env() == Seq::new(ENV_VAR_COUNT as nat, |i: int| 0u64),
            r.stack() == Seq::<StackValue>::empty(),
            r.loops() == Seq::<LoopTracker>::empty(),
            r.program().spec_instructions() == instructions@,
            r.program().spec_values() == padded(instructions@, MathStackInstructions::VALUE, values@, 0u64),
            r.program().spec_operations() == padded(
                instructions@,
                MathStackInstructions::OP,
                operations@,
                MathStackOperators::NULL,
            ),
    {
        Self::from_code(stack_size, ProgramCode::new(values, operations, instructions))
    }

    /// A thread at the start of a program.
    pub fn from_code(stack_size: usize, program_code: ProgramCode) -> (r: Self)
        requires
            program_code.aligned(),
        ensures
            r.wf(),
            r.pc() == 0,
            r.max_stack() == stack_size,
            r.env() == Seq::new(ENV_VAR_COUNT as nat, |i: int| 0u64),
            r.stack() == Seq::<StackValue>::empty(),
            r.loops() == Seq::<LoopTracker>::empty(),
            *r.program() == program_code,
    {
        let mut env_vars: Vec<u64> = Vec::new();
        let mut i: usize = 0;
        while i < ENV_VAR_COUNT
            invariant
                i <= ENV_VAR_COUNT,
                env_vars@ == Seq::new(i as nat, |k: int| 0u64),
            decreases ENV_VAR_COUNT - i,
        {
            env_vars.push(0);
            assert(env_vars@ =~= Seq::new((i + 1) as nat, |k: int| 0u64));
            i = i + 1;
        }
        ThreadContext {
            thread_id: 0,
            program_counter: 0,
            stack_maxsize: stack_size,
            env_vars,
            program_code,
            stack: Vec::new(),
            heap: EmulatorHeap::new(),
            loop_counters: Vec::new(),
        }
    }

    /// Pushes a value (see `spec_push`).
    pub fn push(&mut self, value: StackValue) -> (r: Result<(), VmError>)
        ensures
            (r, final(self).stack()) == spec_push(old(self).stack(), old(self).max_stack(), value),
            final(self).pc() == old(self).pc(),
            final(self).max_stack() == old(self).max_stack(),
            final(self).env() == old(self).env(),
            final(self).program() == old(self).program(),
            final(self).heap_view() == old(self).heap_view(),
            final(self).loops() == old(self).loops(),
            final(self).wf() == old(self).wf(),
    {
        if self.stack.len() < self.stack_maxsize {
            self.stack.push(value);
            Ok(())
        } else {
            Err(VmError::StackFull)
        }
    }

    /// Pops the top value (see `spec_pop`).
    pub fn pop(&mut self) -> (r: Result<StackValue, VmError>)
        ensures
            (r, final(self).stack()) == spec_pop(old(self).stack()),
            final(self).pc() == old(self).pc(),
            final(self).max_stack() == old(self).max_stack(),
            final(self).env() == old(self).env(),
            final(self).program() == old(self).program(),
            final(self).heap_view() == old(self).heap_view(),
            final(self).loops() == old(self).loops(),
            final(self).wf() == old(self).wf(),
    {
        match self.stack.pop() {
            Some(value) => Ok(value),
            None => Err(VmError::StackEmpty),
        }
    }

    /// The value at a stack index.
    pub fn read_stack(&self, stack_index: usize) -> (r: Result<StackValue, VmError>)
        ensures
            r == (if stack_index < self.stack().len() {
                Ok(self.stack()[stack_index as int])
            } else {
                Err(VmError::InvalidStackAddress)
            }),
    {
        if stack_index < self.stack.len() {
            Ok(self.stack[stack_index])
        } else {
            Err(VmError::InvalidStackAddress)
        }
    }

    /// Replaces the value at a stack index.
    pub fn write_stack(&mut self, stack_index: usize, new_value: StackValue) -> (r: Result<(), VmError>)
        ensures
            stack_index < old(self).stack().len() ==> r is Ok && final(self).stack() == old(self).stack().update(
                stack_index as int,
                new_value,
            ),
            stack_index >= old(self).stack().len() ==> r == Err::<(), VmError>(VmError::InvalidStackAddress)
                && final(self).stack() == old(self).stack(),
            final(self).pc() == old(self).pc(),
            final(self).max_stack() == old(self).max_stack(),
            final(self).env() == old(self).env(),
            final(self).program() == old(self).program(),
            final(self).heap_view() == old(self).heap_view(),
            final(self).loops() == old(self).loops(),
            final(self).wf() == old(self).wf(),
    {
        if stack_index < self.stack.len() {
            self.stack.set(stack_index, new_value);
            Ok(())
        } else {
            Err(VmError::InvalidStackAddress)
        }
    }

    /// The value of the current instruction (instructions run from the end
    /// of the list to its start).
    pub fn get_value(&self) -> (r: u64)
        requires
            self.wf(),
            self.pc() < self.program().spec_instructions().len(),
        ensures
            r == self.program().spec_values()[self.program().spec_values().len() - 1 - self.pc()],
    {
        self.program_code.values[self.program_code.values.len() - self.program_counter - 1]
    }

    /// The operation of the current instruction.
    pub fn get_operation(&self) -> (r: MathStackOperators)
        requires
            self.wf(),
            self.pc() < self.program().spec_instructions().len(),
        ensures
            r == self.program().spec_operations()[self.program().spec_operations().len() - 1 - self.pc()],
    {
        self.program_code.operations[self.program_code.operations.len() - self.program_counter - 1]
    }

    /// The current instruction.
    pub fn get_instruction(&self) -> (r: MathStackInstructions)
        requires
            self.pc() < self.program().spec_instructions().len(),
        ensures
            r == self.program().spec_instructions()[self.program().spec_instructions().len() - 1 - self.pc()],
    {
        self.program_code.instructions[self.program_code.instructions.len() - self.program_counter - 1]
    }

    /// The program counter.
    pub fn get_pc(&self) -> (r: usize)
        ensures
            r == self.pc(),
    {
        self.program_counter
    }

    /// Moves the program counter; refused beyond the end of the program.
    pub fn set_pc(&mut self, new_pc: usize) -> (r: Result<(), VmError>)
        ensures
            new_pc <= old(self).program().spec_instructions().len() ==> r == Ok::<(), VmError>(()) && final(self).pc() == new_pc,
            new_pc > old(self).program().spec_instructions().len() ==> r == Err::<(), VmError>(
                VmError::ProgramCounterOutOfRange,
            ) && final(self).pc() == old(self).pc(),
            final(self).stack() == old(self).stack(),
            final(self).max_stack() == old(self).max_stack(),
            final(self).env() == old(self).env(),
            final(self).program() == old(self).program(),
            final(self).heap_view() == old(self).heap_view(),
            final(self).loops() == old(self).loops(),
            final(self).wf() == old(self).wf(),
    {
        if new_pc <= self.program_code.instructions.len() {
            self.program_counter = new_pc;
            Ok(())
        } else {
            Err(VmError::ProgramCounterOutOfRange)
        }
    }

    /// Advances the program counter by one.
    pub fn step_pc(&mut self)
        requires
            old(self).pc() < usize::MAX,
        ensures
            final(self).pc() == old(self).pc() + 1,
            final(self).stack() == old(self).stack(),
            final(self).max_stack() == old(self).max_stack(),
            final(self).env() == old(self).env(),
            final(self).program() == old(self).program(),
            final(self).heap_view() == old(self).heap_view(),
            final(self).loops() == old(self).loops(),
            final(self).wf() == old(self).wf(),
    {
        self.program_counter = self.program_counter + 1;
    }

    /// Starts a loop.
    pub fn enter_loop(&mut self, tracker: LoopTracker)
        ensures
            final(self).loops() == old(self).loops().push(tracker),
            final(self).pc() == old(self).pc(),
            final(self).stack() == old(self).stack(),
            final(self).max_stack() == old(self).max_stack(),
            final(self).env() == old(self).env(),
            final(self).program() == old(self).program(),
            final(self).heap_view() == old(self).heap_view(),
            final(self).wf() == old(self).wf(),
    {
        self.loop_counters.push(tracker);
    }

    /// Counts one more iteration of the innermost loop. When it reaches its
    /// bound the loop ends; otherwise execution goes back to the loop start.
    pub fn iterate_loop(&mut self) -> (r: Result<(), VmError>)
        requires
            old(self).loops().len() > 0 ==> old(self).loops().last().spec_current() < i64::MAX,
        ensures
            (r, final(self).loops(), final(self).pc()) == spec_iterate(
                old(self).loops(),
                old(self).pc(),
                old(self).program().spec_instructions().len(),
            ),
            final(self).stack() == old(self).stack(),
            final(self).max_stack() == old(self).max_stack(),
            final(self).env() == old(self).env(),
            final(self).program() == old(self).program(),
            final(self).heap_view() == old(self).heap_view(),
            final(self).wf() == old(self).wf(),
            old(self).loops().len() == 0 ==> r == Err::<(), VmError>(VmError::NoLoopCounter) && final(self).loops()
                == old(self).loops() && final(self).pc() == old(self).pc(),
            old(self).loops().len() > 0 ==> ({
                let counter = old(self).loops().last();
                let next = counter.advanced();
                if counter.spec_current() + 1 >= counter.spec_max() {
                    &&& r is Ok
                    &&& final(self).loops() == old(self).loops().drop_last()
                    &&& final(self).pc() == old(self).pc()
                } else {
                    &&& final(self).loops() == old(self).loops().drop_last().push(next)
                    &&& if counter.spec_loop_start() <= old(self).program().spec_instructions().len() {
                        r is Ok && final(self).pc() == counter.spec_loop_start()
                    } else {
                        r == Err::<(), VmError>(VmError::ProgramCounterOutOfRange) && final(self).pc() == old(self).pc()
                    }
                }
            }),
    {
        let mut counter = match self.loop_counters.pop() {
            Some(counter) => counter,
            None => {
                return Err(VmError::NoLoopCounter);
            },
        };
        let ghost before = old(self).loops();
        counter.current = counter.current + 1;
        assert(counter == before.last().advanced());
        if counter.current >= counter.max {
            assert(self.loop_counters@ =~= before.drop_last());
            Ok(())
        } else {
            let start = counter.loop_start;
            self.loop_counters.push(counter);
            assert(self.loop_counters@ =~= before.drop_last().push(before.last().advanced()));
            self.set_pc(start)
        }
    }

    /// The loops being run.
    pub fn get_loop_counter_stack(&self) -> (r: &Vec<LoopTracker>)
        ensures
            r@ == self.loops(),
    {
        &self.loop_counters
    }

    /// Sets environment variable `var_id` (0 to 55).
    pub fn set_env_var(&mut self, var_id: usize, value: u64) -> (r: Result<(), VmError>)
        requires
            old(self).wf(),
        ensures
            final(self).wf(),
            final(self).env().len() == ENV_VAR_COUNT,
            var_id < ENV_VAR_COUNT ==> r is Ok && final(self).env() == old(self).env().update(var_id as int, value),
            var_id >= ENV_VAR_COUNT ==> r == Err::<(), VmError>(VmError::NoSuchEnvVar) && final(self).env() == old(
                self,
            ).env(),
            final(self).pc() == old(self).pc(),
            final(self).stack() == old(self).stack(),
            final(self).max_stack() == old(self).max_stack(),
            final(self).program() == old(self).program(),
            final(self).heap_view() == old(self).heap_view(),
            final(self).loops() == old(self).loops(),
    {
        if var_id < ENV_VAR_COUNT {
            self.env_vars.set(var_id, value);
            Ok(())
        } else {
            Err(VmError::NoSuchEnvVar)
        }
    }

    /// The value of environment variable `var_id` (0 to 55).
    pub fn get_env_var(&self, var_id: usize) -> (r: Result<u64, VmError>)
        requires
            self.wf(),
        ensures
            self.env().len() == ENV_VAR_COUNT,
            r == (if var_id < ENV_VAR_COUNT {
                Ok(self.env()[var_id as int])
            } else {
                Err(VmError::NoSuchEnvVar)
            }),
    {
        if var_id < ENV_VAR_COUNT {
            Ok(self.env_vars[var_id])
        } else {
            Err(VmError::NoSuchEnvVar)
        }
    }

    /// The name of environment variable `var_id`: that of its load
    /// operation without the leading `LD` (`A` for `LDA`, `Z0` for `LDZ0`).
    pub fn get_env_var_name(&self, var_id: usize) -> (r: Result<String, VmError>)
        ensures
            var_id < ENV_VAR_COUNT ==> (r matches Ok(name) && name@ == env_var_name(var_id)),
            var_id >= ENV_VAR_COUNT ==> r == Err::<String, VmError>(VmError::NoSuchEnvVar),
    {
        if var_id < ENV_VAR_COUNT {
            let code = MathStackOperators::LDA.as_u32() + var_id as u32;
            match MathStackOperators::from_u32(code) {
                Some(load_op) => {
                    let name = load_op.name_chars();
                    proof {
                        crate::emulator::ops::lemma_operation_name_length(load_op);
                    }
                    let mut short: Vec<char> = Vec::new();
                    let mut i: usize = 2;
                    while i < name.len()
                        invariant
                            2 <= i <= name@.len(),
                            short@ == name@.subrange(2, i as int),
                        decreases name@.len() - i,
                    {
                        short.push(name[i]);
                        assert(name@.subrange(2, i + 1) =~= name@.subrange(2, i as int).push(name@[i as int]));
                        i = i + 1;
                    }
                    proof {
                        crate::emulator::ops::law_decoded_operation_has_opcode(code);
                        assert(name@.subrange(2, name@.len() as int) =~= name@.skip(2));
                    }
                    Ok(chars_to_string(&short))
                },
                None => Ok(String::new()),
            }
        } else {
            Err(VmError::NoSuchEnvVar)
        }
    }

    /// A copy of the stack.
    pub fn get_stack(&self) -> (r: Vec<StackValue>)
        ensures
            r@ == self.stack(),
    {
        let mut copy: Vec<StackValue> = Vec::new();
        let mut i: usize = 0;
        while i < self.stack.len()
            invariant
                i <= self.stack@.len(),
                copy@ == self.stack@.take(i as int),
            decreases self.stack@.len() - i,
        {
            copy.push(self.stack[i]);
            assert(self.stack@.take(i + 1) =~= self.stack@.take(i as int).push(self.stack@[i as int]));
            i = i + 1;
        }
        assert(self.stack@.take(i as int) =~= self.stack@);
        copy
    }

    /// The index of the top of the stack; `None` for an empty stack.
    pub fn get_stack_pointer(&self) -> (r: Option<usize>)
        ensures
            r == (if self.stack().len() == 0 { None } else { Some((self.stack().len() - 1) as usize) }),
    {
        self.stack.len().checked_sub(1)
    }

    /// Resizes the stack so that its top is at `new_ptr`.
    pub fn set_stack_pointer(&mut self, new_ptr: usize)
        requires
            new_ptr < usize::MAX,
        ensures
            final(self).stack() == resized(old(self).stack(), (new_ptr + 1) as nat),
            final(self).pc() == old(self).pc(),
            final(self).max_stack() == old(self).max_stack(),
            final(self).env() == old(self).env(),
            final(self).program() == old(self).program(),
            final(self).heap_view() == old(self).heap_view(),
            final(self).loops() == old(self).loops(),
            final(self).wf() == old(self).wf(),
    {
        self.set_stack_len(new_ptr + 1);
    }

    /// Allocates a heap region (see `spec_malloc`).
    pub fn heap_malloc(&mut self, num_bytes: usize) -> (r: Result<usize, HeapError>)
        requires
            old(self).wf(),
        ensures
            final(self).wf(),
            (r, final(self).heap_view().0, final(self).heap_view().1) == spec_malloc(
                old(self).heap_view().0,
                old(self).heap_view().1,
                num_bytes,
            ),
            final(self).stack() == old(self).stack(),
            final(self).env() == old(self).env(),
            final(self).pc() == old(self).pc(),
            final(self).max_stack() == old(self).max_stack(),
            final(self).program() == old(self).program(),
            final(self).loops() == old(self).loops(),
    {
        self.heap.malloc(num_bytes)
    }

    /// Frees a heap region (see `spec_free`).
    pub fn heap_free(&mut self, pointer: usize) -> (r: Result<(), HeapError>)
        requires
            old(self).wf(),
        ensures
            final(self).wf(),
            (r, final(self).heap_view().0) == spec_free(old(self).heap_view().0, pointer),
            final(self).heap_view().1 == old(self).heap_view().1,
            final(self).stack() == old(self).stack(),
            final(self).env() == old(self).env(),
            final(self).pc() == old(self).pc(),
            final(self).max_stack() == old(self).max_stack(),
            final(self).program() == old(self).program(),
            final(self).loops() == old(self).loops(),
    {
        self.heap.free(pointer)
    }

    /// Reads a heap byte (see `spec_read`).
    pub fn heap_read(&mut self, pointer: usize) -> (r: Result<u8, HeapError>)
        requires
            old(self).wf(),
        ensures
            final(self).wf(),
            r == spec_read(old(self).heap_view().0, pointer),
            final(self).heap_view() == old(self).heap_view(),
            final(self).stack() == old(self).stack(),
            final(self).env() == old(self).env(),
            final(self).pc() == old(self).pc(),
            final(self).max_stack() == old(self).max_stack(),
            final(self).program() == old(self).program(),
            final(self).loops() == old(self).loops(),
    {
        self.heap.read(pointer)
    }

    /// Writes a heap byte (see `spec_write`).
    pub fn heap_write(&mut self, pointer: usize, value: u8) -> (r: Result<(), HeapError>)
        requires
            old(self).wf(),
        ensures
            final(self).wf(),
            (r, final(self).heap_view().0) == spec_write(old(self).heap_view().0, pointer, value),
            final(self).heap_view().1 == old(self).heap_view().1,
            final(self).stack() == old(self).stack(),
            final(self).env() == old(self).env(),
            final(self).pc() == old(self).pc(),
            final(self).max_stack() == old(self).max_stack(),
            final(self).program() == old(self).program(),
            final(self).loops() == old(self).loops(),
    {
        self.heap.write(pointer, value)
    }

    /// Copies heap bytes (see `spec_memcpy`).
    pub fn heap_memcpy(&mut self, dest: usize, src: usize, count: usize) -> (r: Result<(), HeapError>)
        requires
            old(self).wf(),
            spec_offset_of(dest) + count <= usize::MAX,
            spec_offset_of(src) + count <= usize::MAX,
        ensures
            final(self).wf(),
            (r, final(self).heap_view().0) == spec_memcpy(old(self).heap_view().0, dest, src, count as int),
            final(self).heap_view().1 == old(self).heap_view().1,
            final(self).stack() == old(self).stack(),
            final(self).env() == old(self).env(),
            final(self).pc() == old(self).pc(),
            final(self).max_stack() == old(self).max_stack(),
            final(self).program() == old(self).program(),
            final(self).loops() == old(self).loops(),
    {
        self.heap.memcpy(dest, src, count)
    }

    /// Fills heap bytes (see `spec_memset`).
    pub fn heap_memset(&mut self, dest: usize, fill: u8, count: usize) -> (r: Result<(), HeapError>)
        requires
            old(self).wf(),
            spec_offset_of(dest) + count <= usize::MAX,
        ensures
            final(self).wf(),
            (r, final(self).heap_view().0) == spec_memset(old(self).heap_view().0, dest, fill, count as int),
            final(self).heap_view().1 == old(self).heap_view().1,
            final(self).stack() == old(self).stack(),
            final(self).env() == old(self).env(),
            final(self).pc() == old(self).pc(),
            final(self).max_stack() == old(self).max_stack(),
            final(self).program() == old(self).program(),
            final(self).loops() == old(self).loops(),
    {
        self.heap.memset(dest, fill, count)
    }

    /// Whether the program counter has reached the end of the instructions.
    pub fn is_execution_finished(&self) -> (r: bool)
        ensures
            r == (self.pc() == self.program().spec_instructions().len()),
    {
        self.program_counter == self.program_code.instructions.len()
    }

    /// The id of the thread.
    pub fn get_thread_id(&self) -> (r: u64)
        ensures
            r == self.thread_id(),
    {
        self.thread_id
    }

    /// The number of values on the stack.
    pub fn get_stack_len(&self) -> (r: usize)
        ensures
            r == self.stack().len(),
    {
        self.stack.len()
    }

    /// Resizes the stack to `new_length` values, dropping values from the
    /// top or pushing unsigned zeros.
    pub fn set_stack_len(&mut self, new_length: usize)
        ensures
            final(self).stack() == resized(old(self).stack(), new_length as nat),
            final(self).pc() == old(self).pc(),
            final(self).max_stack() == old(self).max_stack(),
            final(self).env() == old(self).env(),
            final(self).program() == old(self).program(),
            final(self).heap_view() == old(self).heap_view(),
            final(self).loops() == old(self).loops(),
            final(self).wf() == old(self).wf(),
    {
        let ghost initial = self.stack@;
        while self.stack.len() > new_length
            invariant
                self.stack@ == initial.take(self.stack@.len() as int),
                self.stack@.len() <= initial.len(),
                self.stack@.len() < initial.len() ==> self.stack@.len() >= new_length,
                self.program_counter == old(self).program_counter,
                self.stack_maxsize == old(self).stack_maxsize,
                self.env_vars == old(self).env_vars,
                self.program_code == old(self).program_code,
                self.loop_counters == old(self).loop_counters,
                self.heap == old(self).heap,
            decreases self.stack@.len(),
        {
            let ghost before = self.stack@;
            self.stack.pop();
            assert(self.stack@ =~= initial.take(self.stack@.len() as int));
        }
        while self.stack.len() < new_length
            invariant
                self.stack@.len() <= new_length,
                forall|i: int| 0 <= i < self.stack@.len() ==> self.stack@[i] == (if i < initial.len() {
                    initial[i]
                } else {
                    StackValue::UINT(0)
                }),
                self.stack@.len() < initial.len() ==> self.stack@.len() == new_length,
                self.program_counter == old(self).program_counter,
                self.stack_maxsize == old(self).stack_maxsize,
                self.env_vars == old(self).env_vars,
                self.program_code == old(self).program_code,
                self.loop_counters == old(self).loop_counters,
                self.heap == old(self).heap,
            decreases new_length - self.stack@.len(),
        {
            self.stack.push(StackValue::UINT(0));
        }
        assert(self.stack@ =~= resized(initial, new_length as nat));
    }

    /// The instructions of the program.
    pub fn get_instructions(&self) -> (r: &Vec<MathStackInstructions>)
        ensures
            r@ == self.program().spec_instructions(),
    {
        &self.program_code.instructions
    }

    /// The operations of the program.
    pub fn get_operations(&self) -> (r: &Vec<MathStackOperators>)
        ensures
            r@ == self.program().spec_operations(),
    {
        &self.program_code.operations
    }

    /// The values of the program.
    pub fn get_values(&self) -> (r: &Vec<u64>)
        ensures
            r@ == self.program().spec_values(),
    {
        &self.program_code.values
    }
}

/// A value pushed onto a stack with room is what the next pop gives, and
/// the pop leaves the stack as it was before the push.
pub proof fn law_pop_undoes_push(stack: Seq<StackValue>, max_size: usize, value: StackValue)
    requires
        stack.len() < max_size,
    ensures
        spec_push(stack, max_size, value).0 is Ok,
        spec_pop(spec_push(stack, max_size, value).1) == (Ok::<StackValue, VmError>(value), stack),
{
    assert(stack.push(value).drop_last() =~= stack);
}

/// A push to a full stack is refused and changes nothing.
pub proof fn law_full_stack_refuses_push(stack: Seq<StackValue>, max_size: usize, value: StackValue)
    requires
        stack.len() >= max_size,
    ensures
        spec_push(stack, max_size, value) == (Err::<(), VmError>(VmError::StackFull), stack),
{
}

/// Resizing keeps the values below the new size.
pub proof fn law_resize_keeps_bottom(stack: Seq<StackValue>, n: nat, i: int)
    requires
        0 <= i < n,
        i < stack.len(),
    ensures
        resized(stack, n)[i] == stack[i],
{
}

/// An environment variable reads back the value last set to it, and setting
/// one leaves every other as it was.
pub proof fn law_env_var_read_after_write(ctx: &ThreadContext, var_id: int, value: u64, other: int)
    requires
        ctx.wf(),
        0 <= var_id < ENV_VAR_COUNT,
        0 <= other < ENV_VAR_COUNT,
        other != var_id,
    ensures
        ctx.env().update(var_id, value)[var_id] == value,
        ctx.env().update(var_id, value)[other] == ctx.env()[other],
        ctx.env().update(var_id, value).len() == ENV_VAR_COUNT,
{
}

} // verus!
