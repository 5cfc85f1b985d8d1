//! The instruction set of the Barracuda virtual machine.
use vstd::prelude::*;
use crate::text::{str_chars, chars_equal};

verus! {

/// An instruction of the Barracuda VM. `OP` runs the operation and `VALUE`
/// loads the value stored at the same index of the program's other tables.
#[allow(non_camel_case_types)]
#[derive(Debug, Clone, Copy, PartialEq, Eq, Structural)]
pub enum BarracudaInstructions {
    /// Runs the operation at the same index in the operations table.
    OP,
    /// Loads the value at the same index in the values table.
    VALUE,
    /// Pops an address and jumps to it.
    GOTO,
    /// Pops an address and a condition; jumps when the condition is zero.
    GOTO_IF,
    /// Pops a start and an end value and opens a loop counter.
    LOOP_ENTRY,
    /// Returns to the most recent loop entry.
    LOOP_END,
}

/// What parsing an instruction name gives.
pub open spec fn spec_instruction_named(name: Seq<char>) -> Result<BarracudaInstructions, ()> {
    if name == BarracudaInstructions::OP.spec_name() {
        Ok(BarracudaInstructions::OP)
    } else if name == BarracudaInstructions::VALUE.spec_name() {
        Ok(BarracudaInstructions::VALUE)
    } else if name == BarracudaInstructions::GOTO.spec_name() {
        Ok(BarracudaInstructions::GOTO)
    } else if name == BarracudaInstructions::GOTO_IF.spec_name() {
        Ok(BarracudaInstructions::GOTO_IF)
    } else if name == BarracudaInstructions::LOOP_ENTRY.spec_name() {
        Ok(BarracudaInstructions::LOOP_ENTRY)
    } else if name == BarracudaInstructions::LOOP_END.spec_name() {
        Ok(BarracudaInstructions::LOOP_END)
    } else {
        Err(())
    }
}

impl BarracudaInstructions {
    /// The instruction code of an instruction.
    pub open spec fn spec_code(self) -> u32 {
        match self {
            BarracudaInstructions::OP => 0,
            BarracudaInstructions::VALUE => 1,
            BarracudaInstructions::GOTO => 2,
            BarracudaInstructions::GOTO_IF => 3,
            BarracudaInstructions::LOOP_ENTRY => 99,
            BarracudaInstructions::LOOP_END => 100,
        }
    }

    /// The name of an instruction as written in `.bct` text.
    pub open spec fn spec_name(self) -> Seq<char> {
        match self {
            BarracudaInstructions::OP => seq!['O', 'P'],
            BarracudaInstructions::VALUE => seq!['V', 'A', 'L', 'U', 'E'],
            BarracudaInstructions::GOTO => seq!['G', 'O', 'T', 'O'],
            BarracudaInstructions::GOTO_IF => seq!['G', 'O', 'T', 'O', '_', 'I', 'F'],
            BarracudaInstructions::LOOP_ENTRY => seq!['L', 'O', 'O', 'P', '_', 'E', 'N', 'T', 'R', 'Y'],
            BarracudaInstructions::LOOP_END => seq!['L', 'O', 'O', 'P', '_', 'E', 'N', 'D'],
        }
    }

    /// The instruction code of this instruction.
    pub fn as_u32(&self) -> (r: u32)
        ensures
            r == self.spec_code(),
    {
        match self {
            BarracudaInstructions::OP => 0,
            BarracudaInstructions::VALUE => 1,
            BarracudaInstructions::GOTO => 2,
            BarracudaInstructions::GOTO_IF => 3,
            BarracudaInstructions::LOOP_ENTRY => 99,
            BarracudaInstructions::LOOP_END => 100,
        }
    }

    /// The name of this instruction as a sequence of characters.
    pub fn name_chars(&self) -> (r: Vec<char>)
        ensures
            r@ == self.spec_name(),
    {
        match self {
            BarracudaInstructions::OP => vec!['O', 'P'],
            BarracudaInstructions::VALUE => vec!['V', 'A', 'L', 'U', 'E'],
            BarracudaInstructions::GOTO => vec!['G', 'O', 'T', 'O'],
            BarracudaInstructions::GOTO_IF => vec!['G', 'O', 'T', 'O', '_', 'I', 'F'],
            BarracudaInstructions::LOOP_ENTRY => vec!['L', 'O', 'O', 'P', '_', 'E', 'N', 'T', 'R', 'Y'],
            BarracudaInstructions::LOOP_END => vec!['L', 'O', 'O', 'P', '_', 'E', 'N', 'D'],
        }
    }

    /// Parses an instruction from its exact name (for instance `"GOTO_IF"`).
    pub fn from_str(s: &str) -> (r: Result<Self, ()>)
        ensures
            r == spec_instruction_named(s@),
            r matches Ok(i) ==> i.spec_name() == s@,
            r is Err ==> forall|i: BarracudaInstructions| #[trigger] i.spec_name() != s@,
    {
        let chars = str_chars(s);
        let all = [
            BarracudaInstructions::OP,
            BarracudaInstructions::VALUE,
            BarracudaInstructions::GOTO,
            BarracudaInstructions::GOTO_IF,
            BarracudaInstructions::LOOP_ENTRY,
            BarracudaInstructions::LOOP_END,
        ];
        let mut k: usize = 0;
        while k < 6
            invariant
                chars@ == s@,
                all@ == seq![
                    BarracudaInstructions::OP,
                    BarracudaInstructions::VALUE,
                    BarracudaInstructions::GOTO,
                    BarracudaInstructions::GOTO_IF,
                    BarracudaInstructions::LOOP_ENTRY,
                    BarracudaInstructions::LOOP_END,
                ],
                k <= 6,
                forall|j: int| 0 <= j < k ==> (#[trigger] all@[j]).spec_name() != s@,
            decreases 6 - k,
        {
            let name = all[k].name_chars();
            if chars_equal(&name, &chars) {
                return Ok(all[k]);
            }
            k = k + 1;
        }
        assert forall|i: BarracudaInstructions| #[trigger] i.spec_name() != s@ by {
            match i {
                BarracudaInstructions::OP => assert(all@[0].spec_name() != s@),
                BarracudaInstructions::VALUE => assert(all@[1].spec_name() != s@),
                BarracudaInstructions::GOTO => assert(all@[2].spec_name() != s@),
                BarracudaInstructions::GOTO_IF => assert(all@[3].spec_name() != s@),
                BarracudaInstructions::LOOP_ENTRY => assert(all@[4].spec_name() != s@),
                BarracudaInstructions::LOOP_END => assert(all@[5].spec_name() != s@),
            }
        }
        Err(())
    }
}

/// Reading an instruction's name gives that instruction back.
pub proof fn law_instruction_name_roundtrip(i: BarracudaInstructions)
    ensures
        spec_instruction_named(i.spec_name()) == Ok::<BarracudaInstructions, ()>(i),
{
    let op = BarracudaInstructions::OP.spec_name();
    let value = BarracudaInstructions::VALUE.spec_name();
    let goto = BarracudaInstructions::GOTO.spec_name();
    let goto_if = BarracudaInstructions::GOTO_IF.spec_name();
    let entry = BarracudaInstructions::LOOP_ENTRY.spec_name();
    assert(op.len() == 2 && value.len() == 5 && goto.len() == 4 && goto_if.len() == 7 && entry.len() == 10);
    match i {
        BarracudaInstructions::LOOP_END => {
            assert(i.spec_name().len() == 8);
        },
        _ => {},
    }
}

/// Instruction names are non-empty and start with an uppercase letter.
pub proof fn lemma_instruction_name_starts_with_letter(i: BarracudaInstructions)
    ensures
        i.spec_name().len() > 0,
        'A' <= i.spec_name()[0] <= 'Z',
{
}

} // verus!
