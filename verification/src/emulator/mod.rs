//! The emulated machine: its state and the faults it can raise.
//!
//! [`Emulator`] is the executable machine. Its abstract model, against which every
//! operation is specified, is [`machine::Machine`].

pub mod execution;
pub mod instruction;
pub mod laws;
pub mod machine;
pub mod semantics;
pub mod util;
pub mod word;

pub use self::execution::Halt;
pub use self::instruction::{init_instructions, Instruction, ModRM};
pub use self::machine::Machine;

use vstd::prelude::*;

verus! {

/// Number of general-purpose registers.
pub const REGISTER_COUNT: usize = 8;

/// The general-purpose registers, in the order of their encoding.
#[derive(Clone, Copy, Debug, PartialEq, Eq, Structural)]
pub enum Register {
    EAX,
    ECX,
    EDX,
    EBX,
    ESP,
    EBP,
    ESI,
    EDI,
}

impl Register {
    /// Position of the register in the register file.
    pub open spec fn spec_index(self) -> usize {
        match self {
            Register::EAX => 0,
            Register::ECX => 1,
            Register::EDX => 2,
            Register::EBX => 3,
            Register::ESP => 4,
            Register::EBP => 5,
            Register::ESI => 6,
            Register::EDI => 7,
        }
    }

    /// Position of the register in the register file.
    #[verifier::when_used_as_spec(spec_index)]
    pub fn index(self) -> (i: usize)
        ensures
            i == self.spec_index(),
            i < REGISTER_COUNT,
    {
        match self {
            Register::EAX => 0,
            Register::ECX => 1,
            Register::EDX => 2,
            Register::EBX => 3,
            Register::ESP => 4,
            Register::EBP => 5,
            Register::ESI => 6,
            Register::EDI => 7,
        }
    }

    /// The register at position `index`, if there is one.
    pub fn from_index(index: usize) -> (r: Option<Register>)
        ensures
            index < REGISTER_COUNT ==> r is Some && r->0.spec_index() == index,
            index >= REGISTER_COUNT ==> r is None,
    {
        match index {
            0 => Some(Register::EAX),
            1 => Some(Register::ECX),
            2 => Some(Register::EDX),
            3 => Some(Register::EBX),
            4 => Some(Register::ESP),
            5 => Some(Register::EBP),
            6 => Some(Register::ESI),
            7 => Some(Register::EDI),
            _ => None,
        }
    }
}

/// Why an instruction could not be executed.
///
/// A fault ends the instruction stream that raised it. The instruction that
/// faults leaves the machine as it found it.
#[derive(Clone, Copy, Debug, PartialEq, Eq, Structural)]
pub enum Fault {
    /// The opcode byte has no handler in the dispatch table.
    UnimplementedOpcode { opcode: u8 },
    /// The opcode names a group, and the group has no operation for the
    /// selector found in the `reg` field of the ModRM byte.
    UnimplementedGroup { opcode: u8, selector: u8 },
    /// The ModRM byte asks for an address that this machine cannot form:
    /// SIB addressing (`rm` 4 outside mode 3), or mode 3, which names a
    /// register and no address.
    UnsupportedAddressing { mode: u8, rm: u8 },
    /// An access reached outside the memory.
    OutOfBounds,
}

/// A machine with a flat memory, eight registers, an instruction pointer and flags.
#[derive(Debug)]
pub struct Emulator {
    /// The general-purpose registers, by [`Register::index`].
    pub registers: [u32; 8],
    /// The flags register.
    pub eflags: u32,
    /// The memory, addressed from zero.
    pub memory: Vec<u8>,
    /// Address of the next byte to fetch.
    pub eip: u32,
}

impl View for Emulator {
    type V = Machine;

    open spec fn view(&self) -> Machine {
        Machine {
            registers: self.registers@,
            eflags: self.eflags,
            memory: self.memory@,
            eip: self.eip,
        }
    }
}

impl Clone for Emulator {
    /// A copy of the machine that shares nothing with it.
    fn clone(&self) -> (copy: Self)
        ensures
            copy@ == self@,
    {
        Emulator {
            registers: self.registers,
            eflags: self.eflags,
            memory: self.memory.clone(),
            eip: self.eip,
        }
    }
}

impl Emulator {
    /// A machine with `size` bytes of zeroed memory, the instruction pointer at
    /// `eip`, the stack pointer and the base pointer at `esp`, and every other
    /// register and the flags zero.
    pub fn create(size: usize, eip: u32, esp: u32) -> (emu: Emulator)
        ensures
            emu@ == Machine::initial(size as nat, eip, esp),
    {
        let mut registers = [0u32; 8];
        registers[Register::ESP.index()] = esp;
        registers[Register::EBP.index()] = esp;
        Emulator { registers, eflags: 0, memory: vec![0u8; size], eip }
    }
}

} // verus!
