//! The abstract machine.
//!
//! [`Machine`] is the mathematical state of an emulator, and its functions say
//! what each primitive operation on memory, registers, stack and flags does.
//! An operation that can fault yields a `Result`.

use super::word::{byte_of, le32, low_word, sign_bit, signed32, signed8, wrap32, wrap64};
use super::{Fault, Register};
use vstd::prelude::*;

verus! {

/// Mask of the carry flag, bit 0 of the flags register.
pub const CARRY_FLAG: u32 = 0x1;

/// Mask of the zero flag, bit 6 of the flags register.
pub const ZERO_FLAG: u32 = 0x40;

/// Mask of the sign flag, bit 7 of the flags register.
pub const SIGN_FLAG: u32 = 0x80;

/// Mask of the overflow flag, bit 11 of the flags register.
pub const OVERFLOW_FLAG: u32 = 0x800;

/// The state of a machine.
#[verifier::ext_equal]
pub struct Machine {
    /// The eight general-purpose registers.
    pub registers: Seq<u32>,
    /// The flags register.
    pub eflags: u32,
    /// The memory, addressed from zero.
    pub memory: Seq<u8>,
    /// Address of the next byte to fetch.
    pub eip: u32,
}

/// `flags` with the bits of `mask` set if `on`, cleared if not.
pub open spec fn with_flag(flags: u32, mask: u32, on: bool) -> u32 {
    if on {
        flags | mask
    } else {
        flags & !mask
    }
}

/// `w` with its bits 0 to 7 replaced by `value`.
pub open spec fn with_low_byte(w: u32, value: u8) -> u32 {
    (w & !0xffu32) | (value as u32)
}

/// `w` with its bits 8 to 15 replaced by `value`.
pub open spec fn with_high_byte(w: u32, value: u8) -> u32 {
    (w & !0xff00u32) | ((value as u32) << 8)
}

/// Bits 0 to 7 of `w`.
pub open spec fn low_byte(w: u32) -> u8 {
    (w & 0xff) as u8
}

/// Bits 8 to 15 of `w`.
pub open spec fn high_byte(w: u32) -> u8 {
    ((w >> 8) & 0xff) as u8
}

impl Machine {
    /// Every machine has eight registers.
    pub open spec fn wf(self) -> bool {
        self.registers.len() == 8
    }

    /// The machine that [`super::Emulator::create`] builds.
    pub open spec fn initial(size: nat, eip: u32, esp: u32) -> Machine {
        Machine {
            registers: Seq::new(
                8,
                |i: int|
                    if i == Register::ESP.index() || i == Register::EBP.index() {
                        esp
                    } else {
                        0u32
                    },
            ),
            eflags: 0,
            memory: Seq::new(size, |i: int| 0u8),
            eip,
        }
    }

    /// Whether the `count` bytes from `address` on lie inside the memory.
    pub open spec fn mapped(self, address: int, count: int) -> bool {
        0 <= address && address + count <= self.memory.len()
    }

    /// Whether the bytes at the instruction pointer are `code`.
    pub open spec fn holds_code(self, code: Seq<u8>) -> bool {
        &&& self.mapped(self.eip as int, code.len() as int)
        &&& forall|i: int| 0 <= i < code.len() ==> self.memory[self.eip + i] == code[i]
    }

    /// The machine with the instruction pointer moved by `distance`, modulo 2^32.
    pub open spec fn advance(self, distance: int) -> Machine {
        Machine { eip: wrap32(self.eip + distance), ..self }
    }

    /// The machine with the instruction pointer at `target`.
    pub open spec fn jump(self, target: u32) -> Machine {
        Machine { eip: target, ..self }
    }

    // Memory

    /// The byte at `address`.
    pub open spec fn get_memory8(self, address: int) -> Result<u8, Fault> {
        if self.mapped(address, 1) {
            Ok(self.memory[address])
        } else {
            Err(Fault::OutOfBounds)
        }
    }

    /// The machine with `value` stored at `address`.
    pub open spec fn set_memory8(self, address: int, value: u8) -> Result<Machine, Fault> {
        if self.mapped(address, 1) {
            Ok(Machine { memory: self.memory.update(address, value), ..self })
        } else {
            Err(Fault::OutOfBounds)
        }
    }

    /// The little-endian word in the four bytes from `address` on.
    pub open spec fn get_memory32(self, address: int) -> Result<u32, Fault> {
        if self.mapped(address, 4) {
            Ok(
                le32(
                    self.memory[address],
                    self.memory[address + 1],
                    self.memory[address + 2],
                    self.memory[address + 3],
                ),
            )
        } else {
            Err(Fault::OutOfBounds)
        }
    }

    /// The machine with `value` stored, least significant byte first, in the
    /// four bytes from `address` on.
    pub open spec fn set_memory32(self, address: int, value: u32) -> Result<Machine, Fault> {
        if self.mapped(address, 4) {
            Ok(
                Machine {
                    memory: self.memory.update(address, byte_of(value, 0)).update(
                        address + 1,
                        byte_of(value, 1),
                    ).update(address + 2, byte_of(value, 2)).update(
                        address + 3,
                        byte_of(value, 3),
                    ),
                    ..self
                },
            )
        } else {
            Err(Fault::OutOfBounds)
        }
    }

    /// The machine with `bytes` stored from `address` on.
    pub open spec fn load(self, address: int, bytes: Seq<u8>) -> Result<Machine, Fault> {
        if self.mapped(address, bytes.len() as int) {
            Ok(
                Machine {
                    memory: Seq::new(
                        self.memory.len(),
                        |i: int|
                            if address <= i < address + bytes.len() {
                                bytes[i - address]
                            } else {
                                self.memory[i]
                            },
                    ),
                    ..self
                },
            )
        } else {
            Err(Fault::OutOfBounds)
        }
    }

    // Instruction bytes

    /// The byte `index` bytes past the instruction pointer.
    pub open spec fn get_code8(self, index: int) -> Result<u8, Fault> {
        self.get_memory8(self.eip + index)
    }

    /// The byte `index` bytes past the instruction pointer, as a signed number.
    pub open spec fn get_sign_code8(self, index: int) -> Result<i8, Fault> {
        match self.get_code8(index) {
            Ok(b) => Ok(signed8(b)),
            Err(fault) => Err(fault),
        }
    }

    /// The little-endian word `index` bytes past the instruction pointer.
    pub open spec fn get_code32(self, index: int) -> Result<u32, Fault> {
        self.get_memory32(self.eip + index)
    }

    /// The little-endian word `index` bytes past the instruction pointer, as a
    /// signed number.
    pub open spec fn get_sign_code32(self, index: int) -> Result<i32, Fault> {
        match self.get_code32(index) {
            Ok(w) => Ok(signed32(w)),
            Err(fault) => Err(fault),
        }
    }

    // Registers

    /// The 32-bit register `index`.
    pub open spec fn get_register32(self, index: int) -> u32 {
        self.registers[index]
    }

    /// The machine with `value` in the 32-bit register `index`.
    pub open spec fn set_register32(self, index: int, value: u32) -> Machine {
        Machine { registers: self.registers.update(index, value), ..self }
    }

    /// The 8-bit register `index`: for 0 to 3 the low byte of register `index`,
    /// for 4 to 7 the high byte (bits 8 to 15) of register `index - 4`.
    pub open spec fn get_register8(self, index: int) -> u8 {
        if index < 4 {
            low_byte(self.registers[index])
        } else {
            high_byte(self.registers[index - 4])
        }
    }

    /// The machine with `value` in the 8-bit register `index`. The other 24 bits
    /// of the 32-bit register that holds it stay as they are.
    pub open spec fn set_register8(self, index: int, value: u8) -> Machine {
        if index < 4 {
            self.set_register32(index, with_low_byte(self.registers[index], value))
        } else {
            self.set_register32(index - 4, with_high_byte(self.registers[index - 4], value))
        }
    }

    // Stack

    /// The stack pointer.
    pub open spec fn esp(self) -> u32 {
        self.registers[Register::ESP.index() as int]
    }

    /// The machine after `value` is pushed: the stack pointer drops by four,
    /// modulo 2^32, and `value` is stored where it then points.
    pub open spec fn push32(self, value: u32) -> Result<Machine, Fault> {
        let top = wrap32(self.esp() - 4);
        self.set_register32(Register::ESP.index() as int, top).set_memory32(top as int, value)
    }

    /// The word on top of the stack, and the machine after it is popped: the
    /// stack pointer rises by four, modulo 2^32.
    pub open spec fn pop32(self) -> Result<(u32, Machine), Fault> {
        match self.get_memory32(self.esp() as int) {
            Ok(value) => Ok(
                (value, self.set_register32(Register::ESP.index() as int, wrap32(self.esp() + 4))),
            ),
            Err(fault) => Err(fault),
        }
    }

    // Flags

    /// Whether a flag of `mask` is set.
    pub open spec fn flag(self, mask: u32) -> bool {
        self.eflags & mask != 0
    }

    /// The machine with the flag of `mask` set to `on`.
    pub open spec fn set_flag(self, mask: u32, on: bool) -> Machine {
        Machine { eflags: with_flag(self.eflags, mask, on), ..self }
    }

    /// The carry flag.
    pub open spec fn is_carry(self) -> bool {
        self.flag(CARRY_FLAG)
    }

    /// The zero flag.
    pub open spec fn is_zero(self) -> bool {
        self.flag(ZERO_FLAG)
    }

    /// The sign flag.
    pub open spec fn is_sign(self) -> bool {
        self.flag(SIGN_FLAG)
    }

    /// The overflow flag.
    pub open spec fn is_overflow(self) -> bool {
        self.flag(OVERFLOW_FLAG)
    }

    /// The machine with the four flags set for the subtraction `a - b` of two
    /// words, the difference computed in 64 bits: carry then says that the
    /// subtraction borrows, that is, that `a` is below `b`.
    pub open spec fn compare(self, a: u32, b: u32) -> Machine {
        self.update_eflags_sub(a, b, wrap64(a - b))
    }

    /// The machine with the four flags set for the subtraction `v1 - v2`, of
    /// which `result` is the difference computed in 64 bits:
    /// carry if `result` has a bit set beyond bit 31; zero if its low 32 bits
    /// are zero; sign if bit 31 is set; overflow if the operands differ in sign
    /// and the result differs in sign from `v1`.
    pub open spec fn update_eflags_sub(self, v1: u32, v2: u32, result: u64) -> Machine {
        let low = low_word(result);
        self.set_flag(CARRY_FLAG, result >= 0x1_0000_0000).set_flag(ZERO_FLAG, low == 0).set_flag(
            SIGN_FLAG,
            sign_bit(low),
        ).set_flag(
            OVERFLOW_FLAG,
            sign_bit(v1) != sign_bit(v2) && sign_bit(v1) != sign_bit(low),
        )
    }
}

/// Setting a flag sets it, and touches no bit outside its mask.
pub proof fn lemma_with_flag(flags: u32, mask: u32, other: u32, on: bool)
    requires
        mask != 0,
        other & mask == 0,
    ensures
        (with_flag(flags, mask, on) & mask != 0) == on,
        with_flag(flags, mask, on) & other == flags & other,
{
    assert((flags | mask) & mask != 0 && (flags & !mask) & mask == 0) by (bit_vector)
        requires
            mask != 0,
    ;
    assert((flags | mask) & other == flags & other && (flags & !mask) & other == flags & other)
        by (bit_vector)
        requires
            other & mask == 0,
    ;
}

/// The four flags lie on four different bits.
pub proof fn lemma_flags_disjoint()
    ensures
        CARRY_FLAG & ZERO_FLAG == 0 && CARRY_FLAG & SIGN_FLAG == 0 && CARRY_FLAG & OVERFLOW_FLAG
            == 0,
        ZERO_FLAG & CARRY_FLAG == 0 && ZERO_FLAG & SIGN_FLAG == 0 && ZERO_FLAG & OVERFLOW_FLAG
            == 0,
        SIGN_FLAG & CARRY_FLAG == 0 && SIGN_FLAG & ZERO_FLAG == 0 && SIGN_FLAG & OVERFLOW_FLAG
            == 0,
        OVERFLOW_FLAG & CARRY_FLAG == 0 && OVERFLOW_FLAG & ZERO_FLAG == 0 && OVERFLOW_FLAG
            & SIGN_FLAG == 0,
{
    assert(0x1u32 & 0x40 == 0 && 0x1u32 & 0x80 == 0 && 0x1u32 & 0x800 == 0 && 0x40u32 & 0x1 == 0
        && 0x40u32 & 0x80 == 0 && 0x40u32 & 0x800 == 0 && 0x80u32 & 0x1 == 0 && 0x80u32 & 0x40
        == 0 && 0x80u32 & 0x800 == 0 && 0x800u32 & 0x1 == 0 && 0x800u32 & 0x40 == 0 && 0x800u32
        & 0x80 == 0) by (bit_vector);
}

/// Whether an operation that changes the machine in place kept its word:
/// `outcome` is what the model says of the state `before`; on success the
/// state `after` is the one the model gives, and on a fault the fault is the
/// model's and the state is untouched.
pub open spec fn transition(
    before: Machine,
    outcome: Result<Machine, Fault>,
    result: Result<(), Fault>,
    after: Machine,
) -> bool {
    match outcome {
        Ok(next) => result is Ok && after == next,
        Err(fault) => result == Err::<(), Fault>(fault) && after == before,
    }
}

/// As [`transition`], for an operation that also hands out a value.
pub open spec fn production<T>(
    before: Machine,
    outcome: Result<(T, Machine), Fault>,
    result: Result<T, Fault>,
    after: Machine,
) -> bool {
    match outcome {
        Ok((value, next)) => result == Ok::<T, Fault>(value) && after == next,
        Err(fault) => result == Err::<T, Fault>(fault) && after == before,
    }
}

} // verus!
