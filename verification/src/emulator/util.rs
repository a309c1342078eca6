//! The primitives of the machine: instruction bytes, operands, registers,
//! memory, stack and flags.

use super::instruction::ModRM;
use super::laws::{lemma_byte_register_write, lemma_flags_independent, lemma_update_eflags_sub};
use super::machine::{
    production, transition, CARRY_FLAG, OVERFLOW_FLAG, SIGN_FLAG, ZERO_FLAG,
};
use super::word::{
    byte_at, low_word, sign_bit, to_signed32, to_signed8, to_unsigned32, word_from_bytes,
};
use super::{Emulator, Fault, Register, REGISTER_COUNT};
use vstd::prelude::*;

verus! {

impl Emulator {
    // Instruction bytes

    /// The byte `index` bytes past the instruction pointer.
    pub fn get_code8(&self, index: usize) -> (r: Result<u8, Fault>)
        ensures
            r == self@.get_code8(index as int),
    {
        match (self.eip as usize).checked_add(index) {
            Some(address) => self.get_memory8(address),
            None => self.beyond_memory(),
        }
    }

    /// The byte `index` bytes past the instruction pointer, as a signed number.
    pub fn get_sign_code8(&self, index: usize) -> (r: Result<i8, Fault>)
        ensures
            r == self@.get_sign_code8(index as int),
    {
        match self.get_code8(index) {
            Ok(b) => Ok(to_signed8(b)),
            Err(fault) => Err(fault),
        }
    }

    /// The little-endian word `index` bytes past the instruction pointer.
    pub fn get_code32(&self, index: usize) -> (r: Result<u32, Fault>)
        ensures
            r == self@.get_code32(index as int),
    {
        match (self.eip as usize).checked_add(index) {
            Some(address) => self.get_memory32(address),
            None => self.beyond_memory(),
        }
    }

    /// The little-endian word `index` bytes past the instruction pointer, as a
    /// signed number.
    pub fn get_sign_code32(&self, index: usize) -> (r: Result<i32, Fault>)
        ensures
            r == self@.get_sign_code32(index as int),
    {
        match self.get_code32(index) {
            Ok(w) => Ok(to_signed32(w)),
            Err(fault) => Err(fault),
        }
    }

    /// The fault for an address too large to be one: the memory ends before it.
    fn beyond_memory<T>(&self) -> (r: Result<T, Fault>)
        ensures
            r == Err::<T, Fault>(Fault::OutOfBounds),
            self@.memory.len() <= usize::MAX,
    {
        let _ = self.memory.len();
        Err(Fault::OutOfBounds)
    }

    // Operands

    /// The address that `modrm` names.
    pub fn calc_memory_address(&self, modrm: &ModRM) -> (r: Result<u32, Fault>)
        requires
            modrm.wf(),
        ensures
            r == self@.calc_memory_address(*modrm),
    {
        match modrm.mode {
            0 => match modrm.rm {
                4 => Err(Fault::UnsupportedAddressing { mode: modrm.mode, rm: modrm.rm }),
                5 => Ok(to_unsigned32(modrm.disp)),
                _ => Ok(self.get_register32(usize::from(modrm.rm))),
            },
            1 | 2 => match modrm.rm {
                4 => Err(Fault::UnsupportedAddressing { mode: modrm.mode, rm: modrm.rm }),
                _ => Ok(self.get_register32(usize::from(modrm.rm)).wrapping_add_signed(modrm.disp)),
            },
            _ => Err(Fault::UnsupportedAddressing { mode: modrm.mode, rm: modrm.rm }),
        }
    }

    /// The 8-bit operand that `modrm` names.
    pub fn get_rm8(&self, modrm: &ModRM) -> (r: Result<u8, Fault>)
        requires
            modrm.wf(),
        ensures
            r == self@.get_rm8(*modrm),
    {
        if modrm.mode == 0b11 {
            Ok(self.get_register8(usize::from(modrm.rm)))
        } else {
            let address = self.calc_memory_address(modrm)?;
            self.get_memory8(address as usize)
        }
    }

    /// The 32-bit operand that `modrm` names.
    pub fn get_rm32(&self, modrm: &ModRM) -> (r: Result<u32, Fault>)
        requires
            modrm.wf(),
        ensures
            r == self@.get_rm32(*modrm),
    {
        if modrm.mode == 0b11 {
            Ok(self.get_register32(usize::from(modrm.rm)))
        } else {
            let address = self.calc_memory_address(modrm)?;
            self.get_memory32(address as usize)
        }
    }

    /// Stores `value` in the 8-bit operand that `modrm` names.
    pub fn set_rm8(&mut self, modrm: &ModRM, value: u8) -> (r: Result<(), Fault>)
        requires
            modrm.wf(),
        ensures
            transition(old(self)@, old(self)@.set_rm8(*modrm, value), r, final(self)@),
    {
        if modrm.mode == 0b11 {
            self.set_register8(usize::from(modrm.rm), value);
            Ok(())
        } else {
            let address = self.calc_memory_address(modrm)?;
            self.set_memory8(address as usize, value)
        }
    }

    /// Stores `value` in the 32-bit operand that `modrm` names.
    pub fn set_rm32(&mut self, modrm: &ModRM, value: u32) -> (r: Result<(), Fault>)
        requires
            modrm.wf(),
        ensures
            transition(old(self)@, old(self)@.set_rm32(*modrm, value), r, final(self)@),
    {
        if modrm.mode == 0b11 {
            self.set_register32(usize::from(modrm.rm), value);
            Ok(())
        } else {
            let address = self.calc_memory_address(modrm)?;
            self.set_memory32(address as usize, value)
        }
    }

    // Registers

    /// The 8-bit register `index`.
    pub fn get_register8(&self, index: usize) -> (value: u8)
        requires
            index < REGISTER_COUNT,
        ensures
            value == self@.get_register8(index as int),
    {
        if index < 4 {
            (self.registers[index] & 0xff) as u8
        } else {
            ((self.registers[index - 4] >> 8) & 0xff) as u8
        }
    }

    /// Stores `value` in the 8-bit register `index`.
    pub fn set_register8(&mut self, index: usize, value: u8)
        requires
            index < REGISTER_COUNT,
        ensures
            final(self)@ == old(self)@.set_register8(index as int, value),
            final(self)@.get_register8(index as int) == value,
            forall|other: int|
                0 <= other < 8 && other != index % 4 ==> final(self)@.get_register32(other) == old(
                    self,
                )@.get_register32(other),
            index < 4 ==> final(self).registers[index as int] & 0xffff_ff00 == old(
                self,
            ).registers[index as int] & 0xffff_ff00,
            index >= 4 ==> final(self).registers[index - 4] & 0xffff_00ff == old(
                self,
            ).registers[index - 4] & 0xffff_00ff,
    {
        proof {
            lemma_byte_register_write(old(self)@, index as int, value);
        }
        if index < 4 {
            self.registers[index] = (self.registers[index] & !0xffu32) | (value as u32);
        } else {
            self.registers[index - 4] = (self.registers[index - 4] & !0xff00u32) | ((value as u32)
                << 8);
        }
    }

    /// The 32-bit register `index`.
    pub fn get_register32(&self, index: usize) -> (value: u32)
        requires
            index < REGISTER_COUNT,
        ensures
            value == self@.get_register32(index as int),
    {
        self.registers[index]
    }

    /// Stores `value` in the 32-bit register `index`.
    pub fn set_register32(&mut self, index: usize, value: u32)
        requires
            index < REGISTER_COUNT,
        ensures
            final(self)@ == old(self)@.set_register32(index as int, value),
    {
        self.registers[index] = value;
    }

    // Memory

    /// The byte at `address`.
    pub fn get_memory8(&self, address: usize) -> (r: Result<u8, Fault>)
        ensures
            r == self@.get_memory8(address as int),
    {
        if address < self.memory.len() {
            Ok(self.memory[address])
        } else {
            Err(Fault::OutOfBounds)
        }
    }

    /// Stores `value` at `address`.
    pub fn set_memory8(&mut self, address: usize, value: u8) -> (r: Result<(), Fault>)
        ensures
            transition(
                old(self)@,
                old(self)@.set_memory8(address as int, value),
                r,
                final(self)@,
            ),
    {
        if address < self.memory.len() {
            self.memory.set(address, value);
            Ok(())
        } else {
            Err(Fault::OutOfBounds)
        }
    }

    /// The little-endian word in the four bytes from `address` on.
    pub fn get_memory32(&self, address: usize) -> (r: Result<u32, Fault>)
        ensures
            r == self@.get_memory32(address as int),
    {
        let len = self.memory.len();
        if address < len && len - address >= 4 {
            Ok(
                word_from_bytes(
                    self.memory[address],
                    self.memory[address + 1],
                    self.memory[address + 2],
                    self.memory[address + 3],
                ),
            )
        } else {
            Err(Fault::OutOfBounds)
        }
    }

    /// Stores `value`, least significant byte first, in the four bytes from
    /// `address` on.
    pub fn set_memory32(&mut self, address: usize, value: u32) -> (r: Result<(), Fault>)
        ensures
            transition(
                old(self)@,
                old(self)@.set_memory32(address as int, value),
                r,
                final(self)@,
            ),
    {
        let len = self.memory.len();
        if address < len && len - address >= 4 {
            self.memory.set(address, byte_at(value, 0));
            self.memory.set(address + 1, byte_at(value, 1));
            self.memory.set(address + 2, byte_at(value, 2));
            self.memory.set(address + 3, byte_at(value, 3));
            Ok(())
        } else {
            Err(Fault::OutOfBounds)
        }
    }

    /// Stores `bytes` from `address` on: machine code before a run, or data.
    pub fn load(&mut self, address: usize, bytes: &[u8]) -> (r: Result<(), Fault>)
        ensures
            transition(old(self)@, old(self)@.load(address as int, bytes@), r, final(self)@),
    {
        let len = self.memory.len();
        let count = bytes.len();
        if address > len || len - address < count {
            return Err(Fault::OutOfBounds);
        }
        let mut i: usize = 0;
        while i < count
            invariant
                i <= count,
                count == bytes@.len(),
                address + count <= len,
                self.memory@.len() == len,
                self.registers == old(self).registers,
                self.eflags == old(self).eflags,
                self.eip == old(self).eip,
                old(self).memory@.len() == len,
                forall|j: int|
                    0 <= j < len ==> self.memory@[j] == (if address <= j < address + i {
                        bytes@[j - address]
                    } else {
                        old(self).memory@[j]
                    }),
            decreases count - i,
        {
            self.memory.set(address + i, bytes[i]);
            i += 1;
        }
        assert(self@.memory =~= old(self)@.load(address as int, bytes@)->Ok_0.memory);
        Ok(())
    }

    // Stack

    /// Pushes `value` on the stack.
    pub fn push32(&mut self, value: u32) -> (r: Result<(), Fault>)
        ensures
            transition(old(self)@, old(self)@.push32(value), r, final(self)@),
    {
        let address = self.get_register32(Register::ESP.index()).wrapping_sub(4);
        match self.set_memory32(address as usize, value) {
            Ok(()) => {
                self.set_register32(Register::ESP.index(), address);
                Ok(())
            },
            Err(fault) => Err(fault),
        }
    }

    /// Pops the word on top of the stack.
    pub fn pop32(&mut self) -> (r: Result<u32, Fault>)
        ensures
            production(old(self)@, old(self)@.pop32(), r, final(self)@),
    {
        let address = self.get_register32(Register::ESP.index());
        match self.get_memory32(address as usize) {
            Ok(value) => {
                self.set_register32(Register::ESP.index(), address.wrapping_add(4));
                Ok(value)
            },
            Err(fault) => Err(fault),
        }
    }

    // Flags

    /// Sets the flags for the subtraction `v1 - v2`, of which `result` is the
    /// difference computed in 64 bits.
    pub fn update_eflags_sub(&mut self, v1: u32, v2: u32, result: u64)
        ensures
            final(self)@ == old(self)@.update_eflags_sub(v1, v2, result),
            final(self)@.is_carry() == (result >= 0x1_0000_0000),
            final(self)@.is_zero() == (low_word(result) == 0),
            final(self)@.is_sign() == sign_bit(low_word(result)),
            final(self)@.is_overflow() == (sign_bit(v1) != sign_bit(v2) && sign_bit(v1)
                != sign_bit(low_word(result))),
    {
        proof {
            lemma_update_eflags_sub(old(self)@, v1, v2, result);
        }
        let sign1 = v1 >> 31;
        let sign2 = v2 >> 31;
        let signr = ((result >> 31) & 0b1) as u32;
        proof {
            lemma_sign_shift(v1);
            lemma_sign_shift(v2);
            lemma_wide_result(result);
        }
        self.set_carry((result >> 32) != 0);
        self.set_zero((result & 0xffff_ffff) == 0);
        self.set_sign(signr != 0);
        self.set_overflow(sign1 != sign2 && sign1 != signr);
    }

    /// Sets the carry flag to `is_carry`.
    pub fn set_carry(&mut self, is_carry: bool)
        ensures
            final(self)@ == old(self)@.set_flag(CARRY_FLAG, is_carry),
            final(self)@.is_carry() == is_carry,
            final(self)@.is_zero() == old(self)@.is_zero(),
            final(self)@.is_sign() == old(self)@.is_sign(),
            final(self)@.is_overflow() == old(self)@.is_overflow(),
    {
        proof {
            lemma_flags_independent(old(self)@, is_carry);
        }
        if is_carry {
            self.eflags |= CARRY_FLAG;
        } else {
            self.eflags &= !CARRY_FLAG;
        }
    }

    /// The carry flag.
    pub fn is_carry(&self) -> (on: bool)
        ensures
            on == self@.is_carry(),
    {
        (self.eflags & CARRY_FLAG) != 0
    }

    /// Sets the zero flag to `is_zero`.
    pub fn set_zero(&mut self, is_zero: bool)
        ensures
            final(self)@ == old(self)@.set_flag(ZERO_FLAG, is_zero),
            final(self)@.is_zero() == is_zero,
            final(self)@.is_carry() == old(self)@.is_carry(),
            final(self)@.is_sign() == old(self)@.is_sign(),
            final(self)@.is_overflow() == old(self)@.is_overflow(),
    {
        proof {
            lemma_flags_independent(old(self)@, is_zero);
        }
        if is_zero {
            self.eflags |= ZERO_FLAG;
        } else {
            self.eflags &= !ZERO_FLAG;
        }
    }

    /// The zero flag.
    pub fn is_zero(&self) -> (on: bool)
        ensures
            on == self@.is_zero(),
    {
        (self.eflags & ZERO_FLAG) != 0
    }

    /// Sets the sign flag to `is_sign`.
    pub fn set_sign(&mut self, is_sign: bool)
        ensures
            final(self)@ == old(self)@.set_flag(SIGN_FLAG, is_sign),
            final(self)@.is_sign() == is_sign,
            final(self)@.is_carry() == old(self)@.is_carry(),
            final(self)@.is_zero() == old(self)@.is_zero(),
            final(self)@.is_overflow() == old(self)@.is_overflow(),
    {
        proof {
            lemma_flags_independent(old(self)@, is_sign);
        }
        if is_sign {
            self.eflags |= SIGN_FLAG;
        } else {
            self.eflags &= !SIGN_FLAG;
        }
    }

    /// The sign flag.
    pub fn is_sign(&self) -> (on: bool)
        ensures
            on == self@.is_sign(),
    {
        (self.eflags & SIGN_FLAG) != 0
    }

    /// Sets the overflow flag to `is_overflow`.
    pub fn set_overflow(&mut self, is_overflow: bool)
        ensures
            final(self)@ == old(self)@.set_flag(OVERFLOW_FLAG, is_overflow),
            final(self)@.is_overflow() == is_overflow,
            final(self)@.is_carry() == old(self)@.is_carry(),
            final(self)@.is_zero() == old(self)@.is_zero(),
            final(self)@.is_sign() == old(self)@.is_sign(),
    {
        proof {
            lemma_flags_independent(old(self)@, is_overflow);
        }
        if is_overflow {
            self.eflags |= OVERFLOW_FLAG;
        } else {
            self.eflags &= !OVERFLOW_FLAG;
        }
    }

    /// The overflow flag.
    pub fn is_overflow(&self) -> (on: bool)
        ensures
            on == self@.is_overflow(),
    {
        (self.eflags & OVERFLOW_FLAG) != 0
    }
}

/// Shifting a word right by 31 leaves its sign bit.
proof fn lemma_sign_shift(v: u32)
    by (bit_vector)
    ensures
        v >> 31 == (if v >= 0x8000_0000 { 1u32 } else { 0u32 }),
{
}

/// The shifts and masks that take a 64-bit difference apart.
proof fn lemma_wide_result(result: u64)
    by (bit_vector)
    ensures
        ((result >> 32) != 0) == (result >= 0x1_0000_0000),
        (result & 0xffff_ffff) == result % 0x1_0000_0000,
        ((result >> 31) & 1) == (if result % 0x1_0000_0000 >= 0x8000_0000 { 1u64 } else { 0u64 }),
{
}

} // verus!
