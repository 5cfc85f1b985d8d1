//! An estimate of the largest stack a program needs, found by following
//! its execution paths through the program code: both ways of a conditional
//! jump (the taken way up to a depth limit), and a jump to a constant
//! address. A jump whose address is not the value just loaded is a return
//! from a function, and ends the path.
use vstd::prelude::*;
use crate::double_bits::{usize_of_double, double_to_usize};
use crate::instructions::BarracudaInstructions;
use crate::program_code::ProgramCode;

verus! {

/// The larger of two numbers.
pub open spec fn larger(a: nat, b: nat) -> nat {
    if a >= b {
        a
    } else {
        b
    }
}

/// The program code the estimator reads: instructions, operations and values.
pub type CodeView = (Seq<BarracudaInstructions>, Seq<crate::ops::BarracudaOperators>, Seq<u64>);

/// Following one path from `pc` with `stack` values on the stack, the
/// largest stack seen so far `max`, and `last` the value loaded by the
/// instruction just before (if it was a VALUE). The result is the largest
/// stack seen along the path and whether the depth limit cut a branch off;
/// `None` when the stack size would leave the range of a `usize`, for an
/// instruction the estimator does not follow (loops), or when `fuel` steps
/// are not enough to reach the end.
pub open spec fn run(
    code: CodeView,
    pc: nat,
    stack: nat,
    max: nat,
    last: Option<u64>,
    depth: nat,
    max_depth: nat,
    fuel: nat,
) -> Option<(nat, bool)>
    decreases fuel, 0nat,
{
    if fuel == 0 {
        None
    } else if pc >= code.0.len() {
        Some((max, false))
    } else {
        let max1 = larger(max, stack);
        match code.0[pc as int] {
            BarracudaInstructions::OP => {
                let (c, p) = if pc < code.1.len() {
                    (
                        (code.1[pc as int].spec_consume() as usize) as nat,
                        (code.1[pc as int].spec_produce() as usize) as nat,
                    )
                } else {
                    (0nat, 0nat)
                };
                if stack < c || stack - c + p > usize::MAX {
                    None
                } else {
                    run(code, pc + 1, (stack - c + p) as nat, max1, None, depth, max_depth, (fuel - 1) as nat)
                }
            },
            BarracudaInstructions::VALUE => if stack + 1 > usize::MAX {
                None
            } else {
                run(
                    code,
                    pc + 1,
                    stack + 1,
                    max1,
                    if pc < code.2.len() {
                        Some(code.2[pc as int])
                    } else {
                        None
                    },
                    depth,
                    max_depth,
                    (fuel - 1) as nat,
                )
            },
            BarracudaInstructions::GOTO => if stack < 1 {
                None
            } else {
                match last {
                    Some(a) => run(code, usize_of_double(a), (stack - 1) as nat, max1, None, depth, max_depth, (fuel - 1) as nat),
                    None => Some((max1, false)),
                }
            },
            BarracudaInstructions::GOTO_IF => if stack < 2 {
                None
            } else {
                match last {
                    Some(a) => match path(code, pc + 1, (stack - 2) as nat, depth + 1, max_depth, (fuel - 1) as nat) {
                        None => None,
                        Some(taken) => match run(
                            code,
                            usize_of_double(a),
                            (stack - 2) as nat,
                            larger(max1, taken.0),
                            None,
                            depth,
                            max_depth,
                            (fuel - 1) as nat,
                        ) {
                            None => None,
                            Some(rest) => Some((rest.0, rest.1 || taken.1)),
                        },
                    },
                    None => Some((max1, false)),
                }
            },
            _ => None,
        }
    }
}

/// Following a path at a given depth: at the depth limit the path is not
/// followed, its estimate is the stack size it starts with, and the limit
/// is reported as reached.
pub open spec fn path(code: CodeView, pc: nat, stack: nat, depth: nat, max_depth: nat, fuel: nat) -> Option<(nat, bool)>
    decreases fuel, 1nat,
{
    if depth >= max_depth {
        Some((stack, true))
    } else {
        run(code, pc, stack, 0, None, depth, max_depth, fuel)
    }
}

/// Following a path with more steps allowed than it needs gives the same
/// estimate.
pub proof fn lemma_run_fuel(
    code: CodeView,
    pc: nat,
    stack: nat,
    max: nat,
    last: Option<u64>,
    depth: nat,
    max_depth: nat,
    fuel: nat,
    more: nat,
)
    requires
        run(code, pc, stack, max, last, depth, max_depth, fuel) is Some,
        fuel <= more,
    ensures
        run(code, pc, stack, max, last, depth, max_depth, more) == run(code, pc, stack, max, last, depth, max_depth, fuel),
    decreases fuel, 0nat,
{
    if pc < code.0.len() {
        let max1 = larger(max, stack);
        let f = (fuel - 1) as nat;
        let m = (more - 1) as nat;
        match code.0[pc as int] {
            BarracudaInstructions::OP => {
                let (c, p) = if pc < code.1.len() {
                    (
                        (code.1[pc as int].spec_consume() as usize) as nat,
                        (code.1[pc as int].spec_produce() as usize) as nat,
                    )
                } else {
                    (0nat, 0nat)
                };
                lemma_run_fuel(code, pc + 1, (stack - c + p) as nat, max1, None, depth, max_depth, f, m);
            },
            BarracudaInstructions::VALUE => {
                let l = if pc < code.2.len() {
                    Some(code.2[pc as int])
                } else {
                    None
                };
                lemma_run_fuel(code, pc + 1, stack + 1, max1, l, depth, max_depth, f, m);
            },
            BarracudaInstructions::GOTO => {
                if let Some(a) = last {
                    lemma_run_fuel(code, usize_of_double(a), (stack - 1) as nat, max1, None, depth, max_depth, f, m);
                }
            },
            BarracudaInstructions::GOTO_IF => {
                if let Some(a) = last {
                    lemma_path_fuel(code, pc + 1, (stack - 2) as nat, depth + 1, max_depth, f, m);
                    let taken = path(code, pc + 1, (stack - 2) as nat, depth + 1, max_depth, f).unwrap();
                    lemma_run_fuel(
                        code,
                        usize_of_double(a),
                        (stack - 2) as nat,
                        larger(max1, taken.0),
                        None,
                        depth,
                        max_depth,
                        f,
                        m,
                    );
                }
            },
            _ => {},
        }
    }
}

/// A path followed with more steps allowed than it needs gives the same estimate.
pub proof fn lemma_path_fuel(code: CodeView, pc: nat, stack: nat, depth: nat, max_depth: nat, fuel: nat, more: nat)
    requires
        path(code, pc, stack, depth, max_depth, fuel) is Some,
        fuel <= more,
    ensures
        path(code, pc, stack, depth, max_depth, more) == path(code, pc, stack, depth, max_depth, fuel),
    decreases fuel, 1nat,
{
    if depth < max_depth {
        lemma_run_fuel(code, pc, stack, 0, None, depth, max_depth, fuel, more);
    }
}


/// The estimate of a path is never below the largest stack seen before it,
/// nor below the stack it starts with when it starts on an instruction.
pub proof fn lemma_run_at_least(
    code: CodeView,
    pc: nat,
    stack: nat,
    max: nat,
    last: Option<u64>,
    depth: nat,
    max_depth: nat,
    fuel: nat,
)
    requires
        run(code, pc, stack, max, last, depth, max_depth, fuel) is Some,
    ensures
        run(code, pc, stack, max, last, depth, max_depth, fuel).unwrap().0 >= max,
        pc < code.0.len() ==> run(code, pc, stack, max, last, depth, max_depth, fuel).unwrap().0 >= stack,
    decreases fuel,
{
    if pc < code.0.len() {
        let max1 = larger(max, stack);
        let f = (fuel - 1) as nat;
        match code.0[pc as int] {
            BarracudaInstructions::OP => {
                let (c, p) = if pc < code.1.len() {
                    (
                        (code.1[pc as int].spec_consume() as usize) as nat,
                        (code.1[pc as int].spec_produce() as usize) as nat,
                    )
                } else {
                    (0nat, 0nat)
                };
                lemma_run_at_least(code, pc + 1, (stack - c + p) as nat, max1, None, depth, max_depth, f);
            },
            BarracudaInstructions::VALUE => {
                let l = if pc < code.2.len() {
                    Some(code.2[pc as int])
                } else {
                    None
                };
                lemma_run_at_least(code, pc + 1, stack + 1, max1, l, depth, max_depth, f);
            },
            BarracudaInstructions::GOTO => {
                if let Some(a) = last {
                    lemma_run_at_least(code, usize_of_double(a), (stack - 1) as nat, max1, None, depth, max_depth, f);
                }
            },
            BarracudaInstructions::GOTO_IF => {
                if let Some(a) = last {
                    let taken = path(code, pc + 1, (stack - 2) as nat, depth + 1, max_depth, f).unwrap();
                    lemma_run_at_least(
                        code,
                        usize_of_double(a),
                        (stack - 2) as nat,
                        larger(max1, taken.0),
                        None,
                        depth,
                        max_depth,
                        f,
                    );
                }
            },
            _ => {},
        }
    }
}

/// At a conditional jump to the address just loaded, both ways are
/// followed: the estimate is at least the estimate of the taken way (the
/// instructions after the jump, one branch deeper) and at least the stack
/// before the jump, and a depth limit reached on the taken way is reported.
pub proof fn law_branch_estimate_covers_both_ways(
    code: CodeView,
    pc: nat,
    stack: nat,
    max: nat,
    address: u64,
    depth: nat,
    max_depth: nat,
    fuel: nat,
)
    requires
        pc < code.0.len(),
        code.0[pc as int] == BarracudaInstructions::GOTO_IF,
        run(code, pc, stack, max, Some(address), depth, max_depth, fuel) is Some,
    ensures
        stack >= 2,
        fuel > 0,
        path(code, pc + 1, (stack - 2) as nat, depth + 1, max_depth, (fuel - 1) as nat) is Some,
        run(code, pc, stack, max, Some(address), depth, max_depth, fuel).unwrap().0 >= path(
            code,
            pc + 1,
            (stack - 2) as nat,
            depth + 1,
            max_depth,
            (fuel - 1) as nat,
        ).unwrap().0,
        run(code, pc, stack, max, Some(address), depth, max_depth, fuel).unwrap().0 >= stack,
        path(code, pc + 1, (stack - 2) as nat, depth + 1, max_depth, (fuel - 1) as nat).unwrap().1
            ==> run(code, pc, stack, max, Some(address), depth, max_depth, fuel).unwrap().1,
{
    lemma_run_at_least(code, pc, stack, max, Some(address), depth, max_depth, fuel);
    let f = (fuel - 1) as nat;
    let taken = path(code, pc + 1, (stack - 2) as nat, depth + 1, max_depth, f).unwrap();
    lemma_run_at_least(
        code,
        usize_of_double(address),
        (stack - 2) as nat,
        larger(larger(max, stack), taken.0),
        None,
        depth,
        max_depth,
        f,
    );
}


/// Loading a value grows the stack by one and an operation changes it by
/// what it produces less what it consumes: when another instruction follows,
/// the estimate counts the stack after the load or the operation.
pub proof fn law_estimate_counts_each_step(
    code: CodeView,
    pc: nat,
    stack: nat,
    max: nat,
    last: Option<u64>,
    depth: nat,
    max_depth: nat,
    fuel: nat,
)
    requires
        pc + 1 < code.0.len(),
        run(code, pc, stack, max, last, depth, max_depth, fuel) is Some,
    ensures
        code.0[pc as int] == BarracudaInstructions::VALUE ==> run(code, pc, stack, max, last, depth, max_depth, fuel).unwrap().0
            >= stack + 1,
        code.0[pc as int] == BarracudaInstructions::OP && pc < code.1.len() && code.1[pc as int].spec_consume() >= 0
            && code.1[pc as int].spec_produce() >= 0 ==> {
            &&& stack + code.1[pc as int].spec_produce() - code.1[pc as int].spec_consume() >= 0
            &&& run(code, pc, stack, max, last, depth, max_depth, fuel).unwrap().0 >= stack
                + code.1[pc as int].spec_produce() - code.1[pc as int].spec_consume()
        },
{
    let max1 = larger(max, stack);
    let f = (fuel - 1) as nat;
    if code.0[pc as int] == BarracudaInstructions::VALUE {
        let l = if pc < code.2.len() {
            Some(code.2[pc as int])
        } else {
            None
        };
        lemma_run_at_least(code, pc + 1, stack + 1, max1, l, depth, max_depth, f);
    } else if code.0[pc as int] == BarracudaInstructions::OP && pc < code.1.len() && code.1[pc as int].spec_consume() >= 0
        && code.1[pc as int].spec_produce() >= 0 {
        let o = code.1[pc as int];
        let c = (o.spec_consume() as usize) as nat;
        let p = (o.spec_produce() as usize) as nat;
        lemma_run_at_least(code, pc + 1, (stack - c + p) as nat, max1, None, depth, max_depth, f);
    }
}

/// Whether the estimate of the code ends within some number of steps
/// (it does not where a jump leads back along the path, as in a loop).
pub open spec fn estimate_ends(code: CodeView, max_depth: nat) -> bool {
    exists|fuel: nat| (#[trigger] path(code, 0, 0, 0, max_depth, fuel)) is Some
}

/// The estimate of the code: the largest stack seen following its paths
/// from the start with an empty stack, and whether the depth limit was reached.
pub open spec fn spec_estimate(code: CodeView, max_depth: nat) -> (nat, bool) {
    path(code, 0, 0, 0, max_depth, choose|fuel: nat| (#[trigger] path(code, 0, 0, 0, max_depth, fuel)) is Some).unwrap()
}

/// The code a program holds.
pub open spec fn code_of(code: &ProgramCode) -> CodeView {
    (code.instructions@, code.operations@, code.values@)
}

/// Follows execution paths to estimate the largest stack size.
pub struct StackEstimator {
    max_depth: usize,
    max_depth_reached: bool,
}

impl StackEstimator {
    /// Follows a path (see `path`): the largest stack size seen; the flag
    /// records that the depth limit was reached.
    fn follow_execution_path(
        &mut self,
        code: &ProgramCode,
        pc: usize,
        stack_size: usize,
        depth: usize,
        Ghost(fuel): Ghost<nat>,
    ) -> (r: usize)
        requires
            path(code_of(code), pc as nat, stack_size as nat, depth as nat, old(self).max_depth as nat, fuel) is Some,
        ensures
            final(self).max_depth == old(self).max_depth,
            r as nat == path(code_of(code), pc as nat, stack_size as nat, depth as nat, old(self).max_depth as nat, fuel).unwrap().0,
            final(self).max_depth_reached == (old(self).max_depth_reached || path(
                code_of(code),
                pc as nat,
                stack_size as nat,
                depth as nat,
                old(self).max_depth as nat,
                fuel,
            ).unwrap().1),
        decreases fuel,
    {
        let ghost cv = code_of(code);
        let ghost md = self.max_depth as nat;
        if depth >= self.max_depth {
            self.max_depth_reached = true;
            return stack_size;
        }
        let ghost target = run(cv, pc as nat, stack_size as nat, 0, None, depth as nat, md, fuel).unwrap();
        let ghost whole = path(cv, pc as nat, stack_size as nat, depth as nat, md, fuel);
        assert(whole == Some(target));
        let mut cur_pc = pc;
        let mut cur_stack = stack_size;
        let mut max_stack_size: usize = 0;
        let mut last_value: Option<u64> = None;
        let ghost mut reached = false;
        let ghost mut f = fuel;
        let n = code.instructions.len();
        loop
            invariant
                n == code.instructions@.len(),
                cv == code_of(code),
                md == self.max_depth as nat,
                self.max_depth == old(self).max_depth,
                depth < self.max_depth,
                whole == Some(target),
                whole == path(cv, pc as nat, stack_size as nat, depth as nat, md, fuel),
                f <= fuel,
                self.max_depth_reached == (old(self).max_depth_reached || reached),
                run(cv, cur_pc as nat, cur_stack as nat, max_stack_size as nat, last_value, depth as nat, md, f) matches Some(
                    rest,
                ) && rest.0 == target.0 && (rest.1 || reached) == target.1,
            decreases f,
        {
            let ghost rest = run(cv, cur_pc as nat, cur_stack as nat, max_stack_size as nat, last_value, depth as nat, md, f).unwrap();
            if cur_pc >= n {
                return max_stack_size;
            }
            if cur_stack > max_stack_size {
                max_stack_size = cur_stack;
            }
            match code.instructions[cur_pc] {
                BarracudaInstructions::OP => {
                    if cur_pc < code.operations.len() {
                        let op = code.operations[cur_pc];
                        cur_stack = cur_stack - op.consume() as usize;
                        cur_stack = cur_stack + op.produce() as usize;
                    }
                    cur_pc = cur_pc + 1;
                    last_value = None;
                },
                BarracudaInstructions::VALUE => {
                    cur_stack = cur_stack + 1;
                    last_value = if cur_pc < code.values.len() {
                        Some(code.values[cur_pc])
                    } else {
                        None
                    };
                    cur_pc = cur_pc + 1;
                },
                BarracudaInstructions::GOTO => {
                    cur_stack = cur_stack - 1;
                    match last_value {
                        Some(address) => {
                            cur_pc = double_to_usize(address);
                        },
                        None => {
                            return max_stack_size;
                        },
                    }
                    last_value = None;
                },
                BarracudaInstructions::GOTO_IF => {
                    cur_stack = cur_stack - 2;
                    match last_value {
                        Some(address) => {
                            let false_pc = double_to_usize(address);
                            let taken = self.follow_execution_path(code, cur_pc + 1, cur_stack, depth + 1, Ghost((f - 1) as nat));
                            proof {
                                reached = reached || path(cv, (cur_pc + 1) as nat, cur_stack as nat, (depth + 1) as nat, md, (f - 1) as nat).unwrap().1;
                            }
                            if taken > max_stack_size {
                                max_stack_size = taken;
                            }
                            cur_pc = false_pc;
                        },
                        None => {
                            return max_stack_size;
                        },
                    }
                    last_value = None;
                },
                _ => {
                    return max_stack_size;
                },
            }
            proof {
                f = (f - 1) as nat;
            }
        }
    }

    /// Estimates the largest stack size a program needs, following branches
    /// up to `max_depth` conditional jumps deep, and whether that limit was
    /// reached (then the estimate may be short).
    pub fn estimate_max_stacksize(code: &ProgramCode, max_depth: usize) -> (r: (usize, bool))
        requires
            estimate_ends(code_of(code), max_depth as nat),
        ensures
            (r.0 as nat, r.1) == spec_estimate(code_of(code), max_depth as nat),
            forall|steps: nat| #[trigger] path(code_of(code), 0, 0, 0, max_depth as nat, steps) is Some
                ==> (r.0 as nat, r.1) == path(code_of(code), 0, 0, 0, max_depth as nat, steps).unwrap(),
    {
        let ghost fuel = choose|fuel: nat| (#[trigger] path(code_of(code), 0, 0, 0, max_depth as nat, fuel)) is Some;
        let mut estimator = StackEstimator { max_depth, max_depth_reached: false };
        let max_stacksize = estimator.follow_execution_path(code, 0, 0, 0, Ghost(fuel));
        assert forall|steps: nat| #[trigger] path(code_of(code), 0, 0, 0, max_depth as nat, steps) is Some
            implies (max_stacksize as nat, estimator.max_depth_reached) == path(code_of(code), 0, 0, 0, max_depth as nat, steps).unwrap() by {
            if fuel <= steps {
                lemma_path_fuel(code_of(code), 0, 0, 0, max_depth as nat, fuel, steps);
            } else {
                lemma_path_fuel(code_of(code), 0, 0, 0, max_depth as nat, steps, fuel);
            }
        }
        (max_stacksize, estimator.max_depth_reached)
    }
}

} // verus!
