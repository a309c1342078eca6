//! Instruction decoding and the instruction handlers.

use super::machine::{production, transition};
use super::semantics::{dispatch_table, GROUP_ARITHMETIC, GROUP_INCREMENT};
use super::word::{
    difference64, lemma_low_word_of_difference, low_half, offset32, sum32, to_unsigned32,
};
use super::{Emulator, Fault, Register};
use vstd::prelude::*;

verus! {

/// A decoded ModRM byte with what follows it.
#[derive(Clone, Copy, Debug, PartialEq, Eq, Structural)]
pub struct ModRM {
    /// Addressing mode, bits 7 and 6 of the byte.
    pub mode: u8,
    /// Register operand or, for a group, the selector of the operation; bits 5 to 3.
    pub reg: u8,
    /// Register or memory operand, bits 2 to 0.
    pub rm: u8,
    /// The SIB byte, where one is present. It is stored and never used.
    pub sib: u8,
    /// The displacement, sign-extended; zero where there is none.
    pub disp: i32,
}

/// A handler of the dispatch table.
#[derive(Clone, Copy, Debug, PartialEq, Eq, Structural)]
pub enum Instruction {
    /// `add r/m32, r32`
    AddRm32R32,
    /// `cmp r/m8, r8`
    CmpRm8R8,
    /// `cmp r32, r/m32`
    CmpR32Rm32,
    /// `cmp al, imm8`
    CmpAlImm8,
    /// `push r32`
    PushR32,
    /// `pop r32`
    PopR32,
    /// `push imm32`
    PushImm32,
    /// `push imm8`
    PushImm8,
    /// `jo rel8`
    Jo,
    /// `jno rel8`
    Jno,
    /// `jc rel8`
    Jc,
    /// `jnc rel8`
    Jnc,
    /// `jz rel8`
    Jz,
    /// `jnz rel8`
    Jnz,
    /// `js rel8`
    Js,
    /// `jns rel8`
    Jns,
    /// The group of `add`, `sub` and `cmp r/m32, imm8`
    Code83,
    /// `mov r/m8, r8`
    MovRm8R8,
    /// `mov r/m32, r32`
    MovRm32R32,
    /// `mov r8, r/m8`
    MovR8Rm8,
    /// `mov r32, r/m32`
    MovR32Rm32,
    /// `mov r32, imm32`
    MovR32Imm32,
    /// `ret`
    Ret,
    /// `mov r/m32, imm32`
    MovRm32Imm32,
    /// `leave`
    Leave,
    /// `call rel32`
    CallRel32,
    /// `jmp rel32`
    NearJump,
    /// `jmp rel8`
    ShortJump,
    /// The group of `inc r/m32`
    CodeFf,
}

impl ModRM {
    /// Whether the three fields are within their bit widths.
    pub fn is_valid(&self) -> (valid: bool)
        ensures
            valid == self.wf(),
    {
        self.mode <= 3 && self.reg <= 7 && self.rm <= 7
    }

    /// Decodes the ModRM byte at the instruction pointer, with the SIB byte and
    /// the displacement that it calls for, and moves the instruction pointer
    /// past them.
    pub fn parse_modrm(emu: &mut Emulator) -> (r: Result<ModRM, Fault>)
        ensures
            production(old(emu)@, old(emu)@.parse_modrm(), r, final(emu)@),
            r matches Ok(modrm) ==> modrm.wf(),
    {
        let code = emu.get_code8(0)?;
        proof {
            lemma_modrm_fields(code);
        }
        let mut modrm = ModRM {
            mode: (code & 0xc0) >> 6,
            reg: (code & 0x38) >> 3,
            rm: code & 0b111,
            sib: 0,
            disp: 0,
        };
        let mut size: u32 = 1;
        if modrm.mode != 0b11 && modrm.rm == 0b100 {
            modrm.sib = emu.get_code8(1)?;
            size += 1;
        }
        if (modrm.mode == 0b00 && modrm.rm == 0b101) || modrm.mode == 0b10 {
            modrm.disp = emu.get_sign_code32(size as usize)?;
            size += 4;
        } else if modrm.mode == 0b01 {
            modrm.disp = i32::from(emu.get_sign_code8(size as usize)?);
            size += 1;
        }
        emu.eip = emu.eip.wrapping_add(size);
        Ok(modrm)
    }
}

/// The masks and shifts that take a ModRM byte apart.
proof fn lemma_modrm_fields(code: u8)
    by (bit_vector)
    ensures
        (code & 0xc0) >> 6 == code / 0x40,
        (code & 0x38) >> 3 == code / 8 % 8,
        code & 0b111 == code % 8,
        code / 0x40 <= 3,
{
}

impl Emulator {
    /// Gives up the instruction that began at `start`: the instruction pointer
    /// goes back there.
    fn rewind(&mut self, start: u32, fault: Fault) -> (r: Result<(), Fault>)
        ensures
            r == Err::<(), Fault>(fault),
            final(self)@ == old(self)@.jump(start),
    {
        self.eip = start;
        Err(fault)
    }

    /// Moves the instruction pointer forward by `length`.
    fn skip(&mut self, length: u32)
        ensures
            final(self)@ == old(self)@.advance(length as int),
    {
        self.eip = sum32(self.eip, length);
    }

    /// Moves the instruction pointer past an instruction of `length` bytes
    /// and on by `diff`.
    fn displace(&mut self, diff: i32, length: u32)
        ensures
            final(self)@ == old(self)@.advance(diff + length),
    {
        self.eip = sum32(offset32(self.eip, diff), length);
    }

    /// Steps over the opcode and decodes the ModRM bytes behind it.
    fn parse_operands(&mut self) -> (r: Result<ModRM, Fault>)
        ensures
            production(old(self)@, old(self)@.advance(1).parse_modrm(), r, final(self)@),
            r matches Ok(modrm) ==> modrm.wf(),
    {
        let start = self.eip;
        self.skip(1);
        match ModRM::parse_modrm(self) {
            Ok(modrm) => Ok(modrm),
            Err(fault) => {
                self.eip = start;
                Err(fault)
            },
        }
    }

    // Moves

    /// `mov r8, r/m8`.
    pub fn mov_r8_rm8(&mut self) -> (r: Result<(), Fault>)
        ensures
            transition(old(self)@, old(self)@.mov_r8_rm8(), r, final(self)@),
    {
        let start = self.eip;
        let modrm = self.parse_operands()?;
        match self.get_rm8(&modrm) {
            Ok(rm8) => {
                self.set_register8(usize::from(modrm.reg), rm8);
                Ok(())
            },
            Err(fault) => self.rewind(start, fault),
        }
    }

    /// `mov r/m8, r8`.
    pub fn mov_rm8_r8(&mut self) -> (r: Result<(), Fault>)
        ensures
            transition(old(self)@, old(self)@.mov_rm8_r8(), r, final(self)@),
    {
        let start = self.eip;
        let modrm = self.parse_operands()?;
        let r8 = self.get_register8(usize::from(modrm.reg));
        match self.set_rm8(&modrm, r8) {
            Ok(()) => Ok(()),
            Err(fault) => self.rewind(start, fault),
        }
    }

    /// `mov r32, imm32`.
    pub fn mov_r32_imm32(&mut self) -> (r: Result<(), Fault>)
        ensures
            transition(old(self)@, old(self)@.mov_r32_imm32(), r, final(self)@),
    {
        let reg = self.get_code8(0)? % 8;
        let value = self.get_code32(1)?;
        self.registers[usize::from(reg)] = value;
        self.skip(5);
        Ok(())
    }

    /// `mov r/m32, imm32`.
    pub fn mov_rm32_imm32(&mut self) -> (r: Result<(), Fault>)
        ensures
            transition(old(self)@, old(self)@.mov_rm32_imm32(), r, final(self)@),
    {
        let start = self.eip;
        let modrm = self.parse_operands()?;
        let value = match self.get_code32(0) {
            Ok(value) => value,
            Err(fault) => {
                return self.rewind(start, fault);
            },
        };
        self.skip(4);
        match self.set_rm32(&modrm, value) {
            Ok(()) => Ok(()),
            Err(fault) => self.rewind(start, fault),
        }
    }

    /// `mov r/m32, r32`.
    pub fn mov_rm32_r32(&mut self) -> (r: Result<(), Fault>)
        ensures
            transition(old(self)@, old(self)@.mov_rm32_r32(), r, final(self)@),
    {
        let start = self.eip;
        let modrm = self.parse_operands()?;
        let r32 = self.get_register32(usize::from(modrm.reg));
        match self.set_rm32(&modrm, r32) {
            Ok(()) => Ok(()),
            Err(fault) => self.rewind(start, fault),
        }
    }

    /// `mov r32, r/m32`.
    pub fn mov_r32_rm32(&mut self) -> (r: Result<(), Fault>)
        ensures
            transition(old(self)@, old(self)@.mov_r32_rm32(), r, final(self)@),
    {
        let start = self.eip;
        let modrm = self.parse_operands()?;
        match self.get_rm32(&modrm) {
            Ok(rm32) => {
                self.set_register32(usize::from(modrm.reg), rm32);
                Ok(())
            },
            Err(fault) => self.rewind(start, fault),
        }
    }

    // Groups

    /// Opcode 83: `add`, `sub` or `cmp r/m32, imm8`, by the `reg` field.
    pub fn code_83(&mut self) -> (r: Result<(), Fault>)
        ensures
            transition(old(self)@, old(self)@.code_83(), r, final(self)@),
    {
        let start = self.eip;
        let modrm = self.parse_operands()?;
        let done = match modrm.reg {
            0 => self.add_rm32_imm8(&modrm),
            5 => self.sub_rm32_imm8(&modrm),
            7 => self.cmp_rm32_imm8(&modrm),
            selector => Err(Fault::UnimplementedGroup { opcode: GROUP_ARITHMETIC, selector }),
        };
        match done {
            Ok(()) => Ok(()),
            Err(fault) => self.rewind(start, fault),
        }
    }

    /// Opcode FF: `inc r/m32`, by the `reg` field.
    pub fn code_ff(&mut self) -> (r: Result<(), Fault>)
        ensures
            transition(old(self)@, old(self)@.code_ff(), r, final(self)@),
    {
        let start = self.eip;
        let modrm = self.parse_operands()?;
        let done = match modrm.reg {
            0 => self.inc_rm32(&modrm),
            selector => Err(Fault::UnimplementedGroup { opcode: GROUP_INCREMENT, selector }),
        };
        match done {
            Ok(()) => Ok(()),
            Err(fault) => self.rewind(start, fault),
        }
    }

    // Arithmetic

    /// `add r/m32, r32`.
    pub fn add_rm32_r32(&mut self) -> (r: Result<(), Fault>)
        ensures
            transition(old(self)@, old(self)@.add_rm32_r32(), r, final(self)@),
    {
        let start = self.eip;
        let modrm = self.parse_operands()?;
        let r32 = self.get_register32(usize::from(modrm.reg));
        let rm32 = match self.get_rm32(&modrm) {
            Ok(rm32) => rm32,
            Err(fault) => {
                return self.rewind(start, fault);
            },
        };
        match self.set_rm32(&modrm, sum32(rm32, r32)) {
            Ok(()) => Ok(()),
            Err(fault) => self.rewind(start, fault),
        }
    }

    /// `add r/m32, imm8`, after the ModRM bytes.
    pub fn add_rm32_imm8(&mut self, modrm: &ModRM) -> (r: Result<(), Fault>)
        requires
            modrm.wf(),
        ensures
            transition(old(self)@, old(self)@.add_rm32_imm8(*modrm), r, final(self)@),
    {
        let start = self.eip;
        let rm32 = self.get_rm32(modrm)?;
        let imm8 = self.get_sign_code8(0)?;
        self.skip(1);
        match self.set_rm32(modrm, offset32(rm32, i32::from(imm8))) {
            Ok(()) => Ok(()),
            Err(fault) => self.rewind(start, fault),
        }
    }

    /// `sub r/m32, imm8`, after the ModRM bytes.
    pub fn sub_rm32_imm8(&mut self, modrm: &ModRM) -> (r: Result<(), Fault>)
        requires
            modrm.wf(),
        ensures
            transition(old(self)@, old(self)@.sub_rm32_imm8(*modrm), r, final(self)@),
    {
        let start = self.eip;
        let rm32 = self.get_rm32(modrm)?;
        let imm8 = to_unsigned32(i32::from(self.get_sign_code8(0)?));
        self.skip(1);
        let result: u64 = difference64(u64::from(rm32), u64::from(imm8));
        proof {
            lemma_low_word_of_difference(rm32, imm8);
        }
        match self.set_rm32(modrm, low_half(result)) {
            Ok(()) => {
                self.update_eflags_sub(rm32, imm8, result);
                Ok(())
            },
            Err(fault) => self.rewind(start, fault),
        }
    }

    /// `inc r/m32`, after the ModRM bytes.
    pub fn inc_rm32(&mut self, modrm: &ModRM) -> (r: Result<(), Fault>)
        requires
            modrm.wf(),
        ensures
            transition(old(self)@, old(self)@.inc_rm32(*modrm), r, final(self)@),
    {
        let value = self.get_rm32(modrm)?;
        self.set_rm32(modrm, sum32(value, 1))
    }

    // Comparisons

    /// `cmp al, imm8`.
    pub fn cmp_al_imm8(&mut self) -> (r: Result<(), Fault>)
        ensures
            transition(old(self)@, old(self)@.cmp_al_imm8(), r, final(self)@),
    {
        let value = self.get_code8(1)?;
        let al = self.get_register8(0);
        let result: u64 = difference64(u64::from(al), u64::from(value));
        self.update_eflags_sub(u32::from(al), u32::from(value), result);
        self.skip(2);
        Ok(())
    }

    /// `cmp r/m8, r8`.
    pub fn cmp_rm8_r8(&mut self) -> (r: Result<(), Fault>)
        ensures
            transition(old(self)@, old(self)@.cmp_rm8_r8(), r, final(self)@),
    {
        let start = self.eip;
        let modrm = self.parse_operands()?;
        let rm8 = match self.get_rm8(&modrm) {
            Ok(rm8) => rm8,
            Err(fault) => {
                return self.rewind(start, fault);
            },
        };
        let r8 = self.get_register8(usize::from(modrm.reg));
        let result: u64 = difference64(u64::from(rm8), u64::from(r8));
        self.update_eflags_sub(u32::from(rm8), u32::from(r8), result);
        Ok(())
    }

    /// `cmp r/m32, imm8`, after the ModRM bytes.
    pub fn cmp_rm32_imm8(&mut self, modrm: &ModRM) -> (r: Result<(), Fault>)
        requires
            modrm.wf(),
        ensures
            transition(old(self)@, old(self)@.cmp_rm32_imm8(*modrm), r, final(self)@),
    {
        let rm32 = self.get_rm32(modrm)?;
        let imm8 = to_unsigned32(i32::from(self.get_sign_code8(0)?));
        self.skip(1);
        let result: u64 = difference64(u64::from(rm32), u64::from(imm8));
        self.update_eflags_sub(rm32, imm8, result);
        Ok(())
    }

    /// `cmp r32, r/m32`.
    pub fn cmp_r32_rm32(&mut self) -> (r: Result<(), Fault>)
        ensures
            transition(old(self)@, old(self)@.cmp_r32_rm32(), r, final(self)@),
    {
        let start = self.eip;
        let modrm = self.parse_operands()?;
        let r32 = self.get_register32(usize::from(modrm.reg));
        let rm32 = match self.get_rm32(&modrm) {
            Ok(rm32) => rm32,
            Err(fault) => {
                return self.rewind(start, fault);
            },
        };
        let result: u64 = difference64(u64::from(r32), u64::from(rm32));
        self.update_eflags_sub(r32, rm32, result);
        Ok(())
    }

    // Jumps

    /// A two-byte jump, taken if `taken`.
    fn jump_if(&mut self, taken: bool) -> (r: Result<(), Fault>)
        ensures
            transition(old(self)@, old(self)@.jump_if(taken), r, final(self)@),
    {
        let diff = if taken {
            i32::from(self.get_sign_code8(1)?)
        } else {
            0i32
        };
        self.displace(diff, 2);
        Ok(())
    }

    /// `jc rel8`.
    pub fn jc(&mut self) -> (r: Result<(), Fault>)
        ensures
            transition(old(self)@, old(self)@.jc(), r, final(self)@),
    {
        let taken = self.is_carry();
        self.jump_if(taken)
    }

    /// `jnc rel8`.
    pub fn jnc(&mut self) -> (r: Result<(), Fault>)
        ensures
            transition(old(self)@, old(self)@.jnc(), r, final(self)@),
    {
        let taken = !self.is_carry();
        self.jump_if(taken)
    }

    /// `jz rel8`.
    pub fn jz(&mut self) -> (r: Result<(), Fault>)
        ensures
            transition(old(self)@, old(self)@.jz(), r, final(self)@),
    {
        let taken = self.is_zero();
        self.jump_if(taken)
    }

    /// `jnz rel8`.
    pub fn jnz(&mut self) -> (r: Result<(), Fault>)
        ensures
            transition(old(self)@, old(self)@.jnz(), r, final(self)@),
    {
        let taken = !self.is_zero();
        self.jump_if(taken)
    }

    /// `js rel8`.
    pub fn js(&mut self) -> (r: Result<(), Fault>)
        ensures
            transition(old(self)@, old(self)@.js(), r, final(self)@),
    {
        let taken = self.is_sign();
        self.jump_if(taken)
    }

    /// `jns rel8`.
    pub fn jns(&mut self) -> (r: Result<(), Fault>)
        ensures
            transition(old(self)@, old(self)@.jns(), r, final(self)@),
    {
        let taken = !self.is_sign();
        self.jump_if(taken)
    }

    /// `jo rel8`.
    pub fn jo(&mut self) -> (r: Result<(), Fault>)
        ensures
            transition(old(self)@, old(self)@.jo(), r, final(self)@),
    {
        let taken = self.is_overflow();
        self.jump_if(taken)
    }

    /// `jno rel8`.
    pub fn jno(&mut self) -> (r: Result<(), Fault>)
        ensures
            transition(old(self)@, old(self)@.jno(), r, final(self)@),
    {
        let taken = !self.is_overflow();
        self.jump_if(taken)
    }

    /// `jmp rel8`.
    pub fn short_jump(&mut self) -> (r: Result<(), Fault>)
        ensures
            transition(old(self)@, old(self)@.short_jump(), r, final(self)@),
    {
        self.jump_if(true)
    }

    /// `jmp rel32`.
    pub fn near_jump(&mut self) -> (r: Result<(), Fault>)
        ensures
            transition(old(self)@, old(self)@.near_jump(), r, final(self)@),
    {
        let diff = self.get_sign_code32(1)?;
        self.displace(diff, 5);
        Ok(())
    }

    // Stack and calls

    /// `push r32`.
    pub fn push_r32(&mut self) -> (r: Result<(), Fault>)
        ensures
            transition(old(self)@, old(self)@.push_r32(), r, final(self)@),
    {
        let reg = self.get_code8(0)? % 8;
        self.push32(self.get_register32(usize::from(reg)))?;
        self.skip(1);
        Ok(())
    }

    /// `push imm32`.
    pub fn push_imm32(&mut self) -> (r: Result<(), Fault>)
        ensures
            transition(old(self)@, old(self)@.push_imm32(), r, final(self)@),
    {
        let value = self.get_code32(1)?;
        self.push32(value)?;
        self.skip(5);
        Ok(())
    }

    /// `push imm8`.
    pub fn push_imm8(&mut self) -> (r: Result<(), Fault>)
        ensures
            transition(old(self)@, old(self)@.push_imm8(), r, final(self)@),
    {
        let value = u32::from(self.get_code8(1)?);
        self.push32(value)?;
        self.skip(2);
        Ok(())
    }

    /// `pop r32`.
    pub fn pop_r32(&mut self) -> (r: Result<(), Fault>)
        ensures
            transition(old(self)@, old(self)@.pop_r32(), r, final(self)@),
    {
        let reg = self.get_code8(0)? % 8;
        let value = self.pop32()?;
        self.set_register32(usize::from(reg), value);
        self.skip(1);
        Ok(())
    }

    /// `call rel32`.
    pub fn call_rel32(&mut self) -> (r: Result<(), Fault>)
        ensures
            transition(old(self)@, old(self)@.call_rel32(), r, final(self)@),
    {
        let diff = self.get_sign_code32(1)?;
        self.push32(sum32(self.eip, 5))?;
        self.displace(diff, 5);
        Ok(())
    }

    /// `ret`.
    pub fn ret(&mut self) -> (r: Result<(), Fault>)
        ensures
            transition(old(self)@, old(self)@.ret(), r, final(self)@),
    {
        self.eip = self.pop32()?;
        Ok(())
    }

    /// `leave`.
    pub fn leave(&mut self) -> (r: Result<(), Fault>)
        ensures
            transition(old(self)@, old(self)@.leave(), r, final(self)@),
    {
        let top = self.get_register32(Register::ESP.index());
        self.set_register32(Register::ESP.index(), self.get_register32(Register::EBP.index()));
        match self.pop32() {
            Ok(value) => {
                self.set_register32(Register::EBP.index(), value);
                self.skip(1);
                Ok(())
            },
            Err(fault) => {
                self.set_register32(Register::ESP.index(), top);
                assert(self@.registers =~= old(self)@.registers);
                Err(fault)
            },
        }
    }

    // Dispatch

    /// Runs the handler `instruction` at the instruction pointer.
    pub fn execute(&mut self, instruction: Instruction) -> (r: Result<(), Fault>)
        ensures
            transition(old(self)@, old(self)@.execute(instruction), r, final(self)@),
    {
        match instruction {
            Instruction::AddRm32R32 => self.add_rm32_r32(),
            Instruction::CmpRm8R8 => self.cmp_rm8_r8(),
            Instruction::CmpR32Rm32 => self.cmp_r32_rm32(),
            Instruction::CmpAlImm8 => self.cmp_al_imm8(),
            Instruction::PushR32 => self.push_r32(),
            Instruction::PopR32 => self.pop_r32(),
            Instruction::PushImm32 => self.push_imm32(),
            Instruction::PushImm8 => self.push_imm8(),
            Instruction::Jo => self.jo(),
            Instruction::Jno => self.jno(),
            Instruction::Jc => self.jc(),
            Instruction::Jnc => self.jnc(),
            Instruction::Jz => self.jz(),
            Instruction::Jnz => self.jnz(),
            Instruction::Js => self.js(),
            Instruction::Jns => self.jns(),
            Instruction::Code83 => self.code_83(),
            Instruction::MovRm8R8 => self.mov_rm8_r8(),
            Instruction::MovRm32R32 => self.mov_rm32_r32(),
            Instruction::MovR8Rm8 => self.mov_r8_rm8(),
            Instruction::MovR32Rm32 => self.mov_r32_rm32(),
            Instruction::MovR32Imm32 => self.mov_r32_imm32(),
            Instruction::Ret => self.ret(),
            Instruction::MovRm32Imm32 => self.mov_rm32_imm32(),
            Instruction::Leave => self.leave(),
            Instruction::CallRel32 => self.call_rel32(),
            Instruction::NearJump => self.near_jump(),
            Instruction::ShortJump => self.short_jump(),
            Instruction::CodeFf => self.code_ff(),
        }
    }
}

/// Binds `instruction` to the `count` opcodes from `first` on.
fn bind(
    instructions: &mut Vec<Option<Instruction>>,
    first: usize,
    count: usize,
    instruction: Instruction,
)
    requires
        first + count <= old(instructions)@.len(),
    ensures
        final(instructions)@ =~= Seq::new(
            old(instructions)@.len(),
            |opcode: int|
                if first <= opcode < first + count {
                    Some(instruction)
                } else {
                    old(instructions)@[opcode]
                },
        ),
{
    let len = instructions.len();
    let mut i: usize = 0;
    while i < count
        invariant
            i <= count,
            first + count <= len,
            instructions@.len() == len,
            instructions@ =~= Seq::new(
                old(instructions)@.len(),
                |opcode: int|
                    if first <= opcode < first + i {
                        Some(instruction)
                    } else {
                        old(instructions)@[opcode]
                    },
            ),
        decreases count - i,
    {
        instructions.set(first + i, Some(instruction));
        i += 1;
    }
}

/// The dispatch table: for each of the 256 opcode bytes its handler, or
/// nothing where the opcode is not implemented.
pub fn init_instructions() -> (instructions: Vec<Option<Instruction>>)
    ensures
        instructions@ == dispatch_table(),
{
    let mut instructions: Vec<Option<Instruction>> = Vec::new();
    while instructions.len() < 256
        invariant
            instructions@.len() <= 256,
            forall|opcode: int| 0 <= opcode < instructions@.len() ==> instructions@[opcode] is None,
        decreases 256 - instructions@.len(),
    {
        instructions.push(None);
    }
    instructions.set(0x01, Some(Instruction::AddRm32R32));
    instructions.set(0x38, Some(Instruction::CmpRm8R8));
    instructions.set(0x3B, Some(Instruction::CmpR32Rm32));
    instructions.set(0x3C, Some(Instruction::CmpAlImm8));
    bind(&mut instructions, 0x50, 8, Instruction::PushR32);
    bind(&mut instructions, 0x58, 8, Instruction::PopR32);
    instructions.set(0x68, Some(Instruction::PushImm32));
    instructions.set(0x6A, Some(Instruction::PushImm8));
    instructions.set(0x70, Some(Instruction::Jo));
    instructions.set(0x71, Some(Instruction::Jno));
    instructions.set(0x72, Some(Instruction::Jc));
    instructions.set(0x73, Some(Instruction::Jnc));
    instructions.set(0x74, Some(Instruction::Jz));
    instructions.set(0x75, Some(Instruction::Jnz));
    instructions.set(0x78, Some(Instruction::Js));
    instructions.set(0x79, Some(Instruction::Jns));
    instructions.set(0x83, Some(Instruction::Code83));
    instructions.set(0x88, Some(Instruction::MovRm8R8));
    instructions.set(0x89, Some(Instruction::MovRm32R32));
    instructions.set(0x8A, Some(Instruction::MovR8Rm8));
    instructions.set(0x8B, Some(Instruction::MovR32Rm32));
    bind(&mut instructions, 0xB8, 8, Instruction::MovR32Imm32);
    instructions.set(0xC3, Some(Instruction::Ret));
    instructions.set(0xC7, Some(Instruction::MovRm32Imm32));
    instructions.set(0xC9, Some(Instruction::Leave));
    instructions.set(0xE8, Some(Instruction::CallRel32));
    instructions.set(0xE9, Some(Instruction::NearJump));
    instructions.set(0xEB, Some(Instruction::ShortJump));
    instructions.set(0xFF, Some(Instruction::CodeFf));
    instructions
}

} // verus!
