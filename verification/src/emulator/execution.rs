//! The execution engine: the loop of fetch, decode and execute.

use super::instruction::Instruction;
use super::machine::transition;
use super::{Emulator, Fault};
use vstd::prelude::*;

verus! {

/// Why a run ended.
#[derive(Clone, Copy, Debug, PartialEq, Eq, Structural)]
pub enum Halt {
    /// The instruction pointer is at or past the end of the code region.
    LeftCodeRegion,
    /// An instruction left the instruction pointer at zero. What that means is
    /// for the caller to say.
    ReachedZero,
    /// The allowed number of instructions was executed.
    StepLimit,
    /// An instruction faulted. The machine is as it was before that instruction.
    Fault(Fault),
}

impl Emulator {
    /// Fetches the opcode byte at the instruction pointer and runs the handler
    /// that `instructions` binds to it.
    pub fn step(&mut self, instructions: &[Option<Instruction>]) -> (r: Result<(), Fault>)
        ensures
            transition(old(self)@, old(self)@.step(instructions@), r, final(self)@),
    {
        let opcode = self.get_code8(0)?;
        let slot = usize::from(opcode);
        if slot < instructions.len() {
            match instructions[slot] {
                Some(instruction) => self.execute(instruction),
                None => Err(Fault::UnimplementedOpcode { opcode }),
            }
        } else {
            Err(Fault::UnimplementedOpcode { opcode })
        }
    }

    /// Runs the machine until the instruction pointer is at or past `code_end`,
    /// an instruction leaves it at zero or faults, or `max_steps` instructions
    /// were executed, and says which.
    pub fn run(&mut self, instructions: &[Option<Instruction>], code_end: u32, max_steps: usize) -> (halt: Halt)
        ensures
            (final(self)@, halt) == old(self)@.run(instructions@, code_end, max_steps as nat),
    {
        let mut steps = max_steps;
        while self.eip < code_end
            invariant
                self@.run(instructions@, code_end, steps as nat) == old(self)@.run(
                    instructions@,
                    code_end,
                    max_steps as nat,
                ),
            decreases steps,
        {
            if steps == 0 {
                return Halt::StepLimit;
            }
            match self.step(instructions) {
                Ok(()) => {},
                Err(fault) => {
                    return Halt::Fault(fault);
                },
            }
            if self.eip == 0 {
                return Halt::ReachedZero;
            }
            steps = steps - 1;
        }
        Halt::LeftCodeRegion
    }
}

} // verus!
