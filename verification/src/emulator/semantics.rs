//! What decoding and each instruction do to the abstract machine.

use super::execution::Halt;
use super::instruction::{Instruction, ModRM};
use super::machine::Machine;
use super::word::{sign_extended, wrap32, zero_extended};
use super::{Fault, Register};
use vstd::prelude::*;

verus! {

impl ModRM {
    /// The three fields are within their bit widths.
    pub open spec fn wf(self) -> bool {
        self.mode <= 3 && self.reg <= 7 && self.rm <= 7
    }

    /// Whether a SIB byte follows the ModRM byte: in every mode but 3, when `rm` is 4.
    pub open spec fn has_sib(self) -> bool {
        self.mode != 3 && self.rm == 4
    }

    /// Number of displacement bytes: four in mode 2 and in mode 0 with `rm` 5,
    /// one in mode 1, none otherwise.
    pub open spec fn disp_size(self) -> int {
        if (self.mode == 0 && self.rm == 5) || self.mode == 2 {
            4
        } else if self.mode == 1 {
            1
        } else {
            0
        }
    }

    /// Number of bytes that the decoding consumes.
    pub open spec fn size(self) -> int {
        1 + (if self.has_sib() {
            1int
        } else {
            0int
        }) + self.disp_size()
    }

    /// The register that `reg` names.
    pub open spec fn reg_index(self) -> int {
        self.reg as int
    }

    /// The register that `rm` names.
    pub open spec fn rm_index(self) -> int {
        self.rm as int
    }

    /// The fields of the ModRM byte `code`: the mode from bits 7 and 6, `reg`
    /// from bits 5 to 3, `rm` from bits 2 to 0. No SIB byte, no displacement.
    pub open spec fn fields(code: u8) -> ModRM {
        ModRM {
            mode: (code / 0x40) as u8,
            reg: (code / 8 % 8) as u8,
            rm: (code % 8) as u8,
            sib: 0,
            disp: 0,
        }
    }
}

impl Machine {
    // Decoding

    /// The SIB byte of the ModRM byte at the instruction pointer, zero where
    /// `fields` calls for none.
    pub open spec fn parse_sib(self, fields: ModRM) -> Result<u8, Fault> {
        if fields.has_sib() {
            self.get_code8(1)
        } else {
            Ok(0u8)
        }
    }

    /// The displacement of the ModRM byte at the instruction pointer,
    /// sign-extended; zero where `fields` calls for none.
    pub open spec fn parse_disp(self, fields: ModRM) -> Result<i32, Fault> {
        let index = fields.size() - fields.disp_size();
        if fields.disp_size() == 4 {
            self.get_sign_code32(index)
        } else if fields.disp_size() == 1 {
            match self.get_sign_code8(index) {
                Ok(disp) => Ok(disp as i32),
                Err(fault) => Err(fault),
            }
        } else {
            Ok(0i32)
        }
    }

    /// Decodes the ModRM byte at the instruction pointer, with the SIB byte and
    /// the displacement that it calls for, and moves the instruction pointer
    /// past them.
    pub open spec fn parse_modrm(self) -> Result<(ModRM, Machine), Fault> {
        match self.get_code8(0) {
            Err(fault) => Err(fault),
            Ok(code) => {
                let fields = ModRM::fields(code);
                match self.parse_sib(fields) {
                    Err(fault) => Err(fault),
                    Ok(sib) => match self.parse_disp(fields) {
                        Err(fault) => Err(fault),
                        Ok(disp) => Ok(
                            (ModRM { sib, disp, ..fields }, self.advance(fields.size())),
                        ),
                    },
                }
            },
        }
    }

    // Operands

    /// The address that `modrm` names.
    ///
    /// Mode 0 is the register `rm`, or with `rm` 5 the displacement itself;
    /// modes 1 and 2 are the register `rm` plus the displacement, modulo 2^32.
    /// SIB addressing (`rm` 4) is not supported, and mode 3 names no address.
    pub open spec fn calc_memory_address(self, modrm: ModRM) -> Result<u32, Fault> {
        if modrm.mode >= 3 || modrm.rm == 4 {
            Err(Fault::UnsupportedAddressing { mode: modrm.mode, rm: modrm.rm })
        } else if modrm.mode == 0 {
            if modrm.rm == 5 {
                Ok(wrap32(modrm.disp as int))
            } else {
                Ok(self.registers[modrm.rm_index()])
            }
        } else {
            Ok(wrap32(self.registers[modrm.rm_index()] + modrm.disp))
        }
    }

    /// The 8-bit operand that `modrm` names: a register in mode 3, else memory.
    pub open spec fn get_rm8(self, modrm: ModRM) -> Result<u8, Fault> {
        if modrm.mode == 3 {
            Ok(self.get_register8(modrm.rm_index()))
        } else {
            match self.calc_memory_address(modrm) {
                Ok(address) => self.get_memory8(address as int),
                Err(fault) => Err(fault),
            }
        }
    }

    /// The 32-bit operand that `modrm` names: a register in mode 3, else memory.
    pub open spec fn get_rm32(self, modrm: ModRM) -> Result<u32, Fault> {
        if modrm.mode == 3 {
            Ok(self.get_register32(modrm.rm_index()))
        } else {
            match self.calc_memory_address(modrm) {
                Ok(address) => self.get_memory32(address as int),
                Err(fault) => Err(fault),
            }
        }
    }

    /// The machine with `value` in the 8-bit operand that `modrm` names.
    pub open spec fn set_rm8(self, modrm: ModRM, value: u8) -> Result<Machine, Fault> {
        if modrm.mode == 3 {
            Ok(self.set_register8(modrm.rm_index(), value))
        } else {
            match self.calc_memory_address(modrm) {
                Ok(address) => self.set_memory8(address as int, value),
                Err(fault) => Err(fault),
            }
        }
    }

    /// The machine with `value` in the 32-bit operand that `modrm` names.
    pub open spec fn set_rm32(self, modrm: ModRM, value: u32) -> Result<Machine, Fault> {
        if modrm.mode == 3 {
            Ok(self.set_register32(modrm.rm_index(), value))
        } else {
            match self.calc_memory_address(modrm) {
                Ok(address) => self.set_memory32(address as int, value),
                Err(fault) => Err(fault),
            }
        }
    }
}

/// Opcode of the group of arithmetic with an 8-bit immediate.
pub const GROUP_ARITHMETIC: u8 = 0x83;

/// Opcode of the group of increment and decrement.
pub const GROUP_INCREMENT: u8 = 0xff;

/// The register that an opcode names in its low three bits.
pub open spec fn opcode_register(opcode: u8) -> int {
    opcode as int % 8
}

impl Machine {
    // Moves

    /// `mov r8, r/m8`.
    pub open spec fn mov_r8_rm8(self) -> Result<Machine, Fault> {
        match self.advance(1).parse_modrm() {
            Err(fault) => Err(fault),
            Ok((modrm, decoded)) => match decoded.get_rm8(modrm) {
                Err(fault) => Err(fault),
                Ok(value) => Ok(decoded.set_register8(modrm.reg_index(), value)),
            },
        }
    }

    /// `mov r/m8, r8`.
    pub open spec fn mov_rm8_r8(self) -> Result<Machine, Fault> {
        match self.advance(1).parse_modrm() {
            Err(fault) => Err(fault),
            Ok((modrm, decoded)) => decoded.set_rm8(
                modrm,
                decoded.get_register8(modrm.reg_index()),
            ),
        }
    }

    /// `mov r32, imm32`: the register comes from the opcode, the immediate
    /// follows it, and the instruction is five bytes long.
    pub open spec fn mov_r32_imm32(self) -> Result<Machine, Fault> {
        match self.get_code8(0) {
            Err(fault) => Err(fault),
            Ok(opcode) => match self.get_code32(1) {
                Err(fault) => Err(fault),
                Ok(value) => Ok(self.set_register32(opcode_register(opcode), value).advance(5)),
            },
        }
    }

    /// `mov r/m32, imm32`: the immediate follows the ModRM bytes.
    pub open spec fn mov_rm32_imm32(self) -> Result<Machine, Fault> {
        match self.advance(1).parse_modrm() {
            Err(fault) => Err(fault),
            Ok((modrm, decoded)) => match decoded.get_code32(0) {
                Err(fault) => Err(fault),
                Ok(value) => decoded.advance(4).set_rm32(modrm, value),
            },
        }
    }

    /// `mov r/m32, r32`.
    pub open spec fn mov_rm32_r32(self) -> Result<Machine, Fault> {
        match self.advance(1).parse_modrm() {
            Err(fault) => Err(fault),
            Ok((modrm, decoded)) => decoded.set_rm32(
                modrm,
                decoded.get_register32(modrm.reg_index()),
            ),
        }
    }

    /// `mov r32, r/m32`.
    pub open spec fn mov_r32_rm32(self) -> Result<Machine, Fault> {
        match self.advance(1).parse_modrm() {
            Err(fault) => Err(fault),
            Ok((modrm, decoded)) => match decoded.get_rm32(modrm) {
                Err(fault) => Err(fault),
                Ok(value) => Ok(decoded.set_register32(modrm.reg_index(), value)),
            },
        }
    }

    // Arithmetic

    /// `add r/m32, r32`: the sum modulo 2^32; the flags stay as they are.
    pub open spec fn add_rm32_r32(self) -> Result<Machine, Fault> {
        match self.advance(1).parse_modrm() {
            Err(fault) => Err(fault),
            Ok((modrm, decoded)) => match decoded.get_rm32(modrm) {
                Err(fault) => Err(fault),
                Ok(value) => decoded.set_rm32(
                    modrm,
                    wrap32(value + decoded.get_register32(modrm.reg_index())),
                ),
            },
        }
    }

    /// `add r/m32, imm8`, after the ModRM bytes: adds the sign-extended
    /// immediate at the instruction pointer, modulo 2^32; the flags stay as
    /// they are.
    pub open spec fn add_rm32_imm8(self, modrm: ModRM) -> Result<Machine, Fault> {
        match self.get_rm32(modrm) {
            Err(fault) => Err(fault),
            Ok(value) => match self.get_sign_code8(0) {
                Err(fault) => Err(fault),
                Ok(imm) => self.advance(1).set_rm32(modrm, wrap32(value + imm)),
            },
        }
    }

    /// `sub r/m32, imm8`, after the ModRM bytes: the immediate at the
    /// instruction pointer is sign-extended to a word, the operand becomes the
    /// difference modulo 2^32, and the flags are set as for comparing the old
    /// operand with that word.
    pub open spec fn sub_rm32_imm8(self, modrm: ModRM) -> Result<Machine, Fault> {
        match self.get_rm32(modrm) {
            Err(fault) => Err(fault),
            Ok(value) => match self.get_sign_code8(0) {
                Err(fault) => Err(fault),
                Ok(imm) => {
                    let operand = sign_extended(imm);
                    match self.advance(1).set_rm32(modrm, wrap32(value - operand)) {
                        Err(fault) => Err(fault),
                        Ok(stored) => Ok(stored.compare(value, operand)),
                    }
                },
            },
        }
    }

    /// `inc r/m32`, after the ModRM bytes: adds one, modulo 2^32; the flags
    /// stay as they are.
    pub open spec fn inc_rm32(self, modrm: ModRM) -> Result<Machine, Fault> {
        match self.get_rm32(modrm) {
            Err(fault) => Err(fault),
            Ok(value) => self.set_rm32(modrm, wrap32(value + 1)),
        }
    }

    // Comparisons

    /// `cmp al, imm8`: sets the flags for comparing the low byte of the
    /// accumulator with the byte after the opcode, both zero-extended.
    pub open spec fn cmp_al_imm8(self) -> Result<Machine, Fault> {
        match self.get_code8(1) {
            Err(fault) => Err(fault),
            Ok(value) => Ok(
                self.compare(zero_extended(self.get_register8(0)), zero_extended(value)).advance(2),
            ),
        }
    }

    /// `cmp r/m8, r8`: sets the flags for comparing the operand with the
    /// register, both zero-extended.
    pub open spec fn cmp_rm8_r8(self) -> Result<Machine, Fault> {
        match self.advance(1).parse_modrm() {
            Err(fault) => Err(fault),
            Ok((modrm, decoded)) => match decoded.get_rm8(modrm) {
                Err(fault) => Err(fault),
                Ok(value) => Ok(
                    decoded.compare(
                        zero_extended(value),
                        zero_extended(decoded.get_register8(modrm.reg_index())),
                    ),
                ),
            },
        }
    }

    /// `cmp r/m32, imm8`, after the ModRM bytes: sets the flags for comparing
    /// the operand with the immediate at the instruction pointer,
    /// sign-extended to a word.
    pub open spec fn cmp_rm32_imm8(self, modrm: ModRM) -> Result<Machine, Fault> {
        match self.get_rm32(modrm) {
            Err(fault) => Err(fault),
            Ok(value) => match self.get_sign_code8(0) {
                Err(fault) => Err(fault),
                Ok(imm) => Ok(self.advance(1).compare(value, sign_extended(imm))),
            },
        }
    }

    /// `cmp r32, r/m32`: sets the flags for comparing the register with the
    /// operand.
    pub open spec fn cmp_r32_rm32(self) -> Result<Machine, Fault> {
        match self.advance(1).parse_modrm() {
            Err(fault) => Err(fault),
            Ok((modrm, decoded)) => match decoded.get_rm32(modrm) {
                Err(fault) => Err(fault),
                Ok(value) => Ok(
                    decoded.compare(decoded.get_register32(modrm.reg_index()), value),
                ),
            },
        }
    }

    // Groups

    /// Opcode 83: `add`, `sub` or `cmp r/m32, imm8`, by the `reg` field 0, 5 or 7.
    pub open spec fn code_83(self) -> Result<Machine, Fault> {
        match self.advance(1).parse_modrm() {
            Err(fault) => Err(fault),
            Ok((modrm, decoded)) => {
                if modrm.reg == 0 {
                    decoded.add_rm32_imm8(modrm)
                } else if modrm.reg == 5 {
                    decoded.sub_rm32_imm8(modrm)
                } else if modrm.reg == 7 {
                    decoded.cmp_rm32_imm8(modrm)
                } else {
                    Err(Fault::UnimplementedGroup { opcode: GROUP_ARITHMETIC, selector: modrm.reg })
                }
            },
        }
    }

    /// Opcode FF: `inc r/m32`, for the `reg` field 0.
    pub open spec fn code_ff(self) -> Result<Machine, Fault> {
        match self.advance(1).parse_modrm() {
            Err(fault) => Err(fault),
            Ok((modrm, decoded)) => {
                if modrm.reg == 0 {
                    decoded.inc_rm32(modrm)
                } else {
                    Err(Fault::UnimplementedGroup { opcode: GROUP_INCREMENT, selector: modrm.reg })
                }
            },
        }
    }

    // Jumps

    /// A two-byte jump that is taken if `taken`: the instruction pointer moves
    /// past the instruction and, if the jump is taken, on by the signed byte
    /// after the opcode. A jump that is not taken does not read that byte.
    pub open spec fn jump_if(self, taken: bool) -> Result<Machine, Fault> {
        if taken {
            match self.get_sign_code8(1) {
                Err(fault) => Err(fault),
                Ok(diff) => Ok(self.advance(diff + 2)),
            }
        } else {
            Ok(self.advance(2))
        }
    }

    /// `jc rel8`.
    pub open spec fn jc(self) -> Result<Machine, Fault> {
        self.jump_if(self.is_carry())
    }

    /// `jnc rel8`.
    pub open spec fn jnc(self) -> Result<Machine, Fault> {
        self.jump_if(!self.is_carry())
    }

    /// `jz rel8`.
    pub open spec fn jz(self) -> Result<Machine, Fault> {
        self.jump_if(self.is_zero())
    }

    /// `jnz rel8`.
    pub open spec fn jnz(self) -> Result<Machine, Fault> {
        self.jump_if(!self.is_zero())
    }

    /// `js rel8`.
    pub open spec fn js(self) -> Result<Machine, Fault> {
        self.jump_if(self.is_sign())
    }

    /// `jns rel8`.
    pub open spec fn jns(self) -> Result<Machine, Fault> {
        self.jump_if(!self.is_sign())
    }

    /// `jo rel8`.
    pub open spec fn jo(self) -> Result<Machine, Fault> {
        self.jump_if(self.is_overflow())
    }

    /// `jno rel8`.
    pub open spec fn jno(self) -> Result<Machine, Fault> {
        self.jump_if(!self.is_overflow())
    }

    /// `jmp rel8`.
    pub open spec fn short_jump(self) -> Result<Machine, Fault> {
        self.jump_if(true)
    }

    /// `jmp rel32`: the instruction pointer moves past the five bytes of the
    /// instruction and on by the signed word after the opcode.
    pub open spec fn near_jump(self) -> Result<Machine, Fault> {
        match self.get_sign_code32(1) {
            Err(fault) => Err(fault),
            Ok(diff) => Ok(self.advance(diff + 5)),
        }
    }

    // Stack and calls

    /// `push r32`: the register comes from the opcode.
    pub open spec fn push_r32(self) -> Result<Machine, Fault> {
        match self.get_code8(0) {
            Err(fault) => Err(fault),
            Ok(opcode) => match self.push32(self.get_register32(opcode_register(opcode))) {
                Err(fault) => Err(fault),
                Ok(pushed) => Ok(pushed.advance(1)),
            },
        }
    }

    /// `push imm32`.
    pub open spec fn push_imm32(self) -> Result<Machine, Fault> {
        match self.get_code32(1) {
            Err(fault) => Err(fault),
            Ok(value) => match self.push32(value) {
                Err(fault) => Err(fault),
                Ok(pushed) => Ok(pushed.advance(5)),
            },
        }
    }

    /// `push imm8`: the byte is pushed as a word, zero-extended.
    pub open spec fn push_imm8(self) -> Result<Machine, Fault> {
        match self.get_code8(1) {
            Err(fault) => Err(fault),
            Ok(value) => match self.push32(zero_extended(value)) {
                Err(fault) => Err(fault),
                Ok(pushed) => Ok(pushed.advance(2)),
            },
        }
    }

    /// `pop r32`: the register comes from the opcode.
    pub open spec fn pop_r32(self) -> Result<Machine, Fault> {
        match self.get_code8(0) {
            Err(fault) => Err(fault),
            Ok(opcode) => match self.pop32() {
                Err(fault) => Err(fault),
                Ok((value, popped)) => Ok(
                    popped.set_register32(opcode_register(opcode), value).advance(1),
                ),
            },
        }
    }

    /// `call rel32`: pushes the address of the next instruction, then jumps as
    /// `jmp rel32` does.
    pub open spec fn call_rel32(self) -> Result<Machine, Fault> {
        match self.get_sign_code32(1) {
            Err(fault) => Err(fault),
            Ok(diff) => match self.push32(wrap32(self.eip + 5)) {
                Err(fault) => Err(fault),
                Ok(pushed) => Ok(pushed.advance(diff + 5)),
            },
        }
    }

    /// `ret`: pops the instruction pointer.
    pub open spec fn ret(self) -> Result<Machine, Fault> {
        match self.pop32() {
            Err(fault) => Err(fault),
            Ok((target, popped)) => Ok(popped.jump(target)),
        }
    }

    /// `leave`: the stack pointer takes the value of the base pointer, and the
    /// base pointer is popped.
    pub open spec fn leave(self) -> Result<Machine, Fault> {
        let unwound = self.set_register32(
            Register::ESP.index() as int,
            self.get_register32(Register::EBP.index() as int),
        );
        match unwound.pop32() {
            Err(fault) => Err(fault),
            Ok((value, popped)) => Ok(
                popped.set_register32(Register::EBP.index() as int, value).advance(1),
            ),
        }
    }
}

/// The handler that the dispatch table binds to `opcode`, if it binds one.
pub open spec fn handler_of(opcode: int) -> Option<Instruction> {
    if opcode == 0x01 {
        Some(Instruction::AddRm32R32)
    } else if opcode == 0x38 {
        Some(Instruction::CmpRm8R8)
    } else if opcode == 0x3b {
        Some(Instruction::CmpR32Rm32)
    } else if opcode == 0x3c {
        Some(Instruction::CmpAlImm8)
    } else if 0x50 <= opcode <= 0x57 {
        Some(Instruction::PushR32)
    } else if 0x58 <= opcode <= 0x5f {
        Some(Instruction::PopR32)
    } else if opcode == 0x68 {
        Some(Instruction::PushImm32)
    } else if opcode == 0x6a {
        Some(Instruction::PushImm8)
    } else if opcode == 0x70 {
        Some(Instruction::Jo)
    } else if opcode == 0x71 {
        Some(Instruction::Jno)
    } else if opcode == 0x72 {
        Some(Instruction::Jc)
    } else if opcode == 0x73 {
        Some(Instruction::Jnc)
    } else if opcode == 0x74 {
        Some(Instruction::Jz)
    } else if opcode == 0x75 {
        Some(Instruction::Jnz)
    } else if opcode == 0x78 {
        Some(Instruction::Js)
    } else if opcode == 0x79 {
        Some(Instruction::Jns)
    } else if opcode == 0x83 {
        Some(Instruction::Code83)
    } else if opcode == 0x88 {
        Some(Instruction::MovRm8R8)
    } else if opcode == 0x89 {
        Some(Instruction::MovRm32R32)
    } else if opcode == 0x8a {
        Some(Instruction::MovR8Rm8)
    } else if opcode == 0x8b {
        Some(Instruction::MovR32Rm32)
    } else if 0xb8 <= opcode <= 0xbf {
        Some(Instruction::MovR32Imm32)
    } else if opcode == 0xc3 {
        Some(Instruction::Ret)
    } else if opcode == 0xc7 {
        Some(Instruction::MovRm32Imm32)
    } else if opcode == 0xc9 {
        Some(Instruction::Leave)
    } else if opcode == 0xe8 {
        Some(Instruction::CallRel32)
    } else if opcode == 0xe9 {
        Some(Instruction::NearJump)
    } else if opcode == 0xeb {
        Some(Instruction::ShortJump)
    } else if opcode == 0xff {
        Some(Instruction::CodeFf)
    } else {
        None
    }
}

/// The dispatch table: 256 slots, one for each opcode byte, each empty or
/// bound to a handler.
pub open spec fn dispatch_table() -> Seq<Option<Instruction>> {
    Seq::new(256, |opcode: int| handler_of(opcode))
}

/// The handler in the slot of `opcode`, if the table has that slot and it
/// is bound.
pub open spec fn lookup(instructions: Seq<Option<Instruction>>, opcode: u8) -> Option<
    Instruction,
> {
    if opcode < instructions.len() {
        instructions[opcode as int]
    } else {
        None
    }
}

impl Machine {
    // Execution

    /// The machine after the handler `instruction` ran at the instruction pointer.
    pub open spec fn execute(self, instruction: Instruction) -> Result<Machine, Fault> {
        match instruction {
            Instruction::AddRm32R32 => self.add_rm32_r32(),
            Instruction::CmpRm8R8 => self.cmp_rm8_r8(),
            Instruction::CmpR32Rm32 => self.cmp_r32_rm32(),
            Instruction::CmpAlImm8 => self.cmp_al_imm8(),
            Instruction::PushR32 => self.push_r32(),
            Instruction::PopR32 => self.pop_r32(),
            Instruction::PushImm32 => self.push_imm32(),
            Instruction::PushImm8 => self.push_imm8(),
            Instruction::Jo => self.jo(),
            Instruction::Jno => self.jno(),
            Instruction::Jc => self.jc(),
            Instruction::Jnc => self.jnc(),
            Instruction::Jz => self.jz(),
            Instruction::Jnz => self.jnz(),
            Instruction::Js => self.js(),
            Instruction::Jns => self.jns(),
            Instruction::Code83 => self.code_83(),
            Instruction::MovRm8R8 => self.mov_rm8_r8(),
            Instruction::MovRm32R32 => self.mov_rm32_r32(),
            Instruction::MovR8Rm8 => self.mov_r8_rm8(),
            Instruction::MovR32Rm32 => self.mov_r32_rm32(),
            Instruction::MovR32Imm32 => self.mov_r32_imm32(),
            Instruction::Ret => self.ret(),
            Instruction::MovRm32Imm32 => self.mov_rm32_imm32(),
            Instruction::Leave => self.leave(),
            Instruction::CallRel32 => self.call_rel32(),
            Instruction::NearJump => self.near_jump(),
            Instruction::ShortJump => self.short_jump(),
            Instruction::CodeFf => self.code_ff(),
        }
    }

    /// One round of fetch, decode and execute: the opcode byte at the
    /// instruction pointer selects a handler from `instructions`, and the
    /// handler runs. An empty or missing slot is a fault.
    pub open spec fn step(self, instructions: Seq<Option<Instruction>>) -> Result<Machine, Fault> {
        match self.get_code8(0) {
            Err(fault) => Err(fault),
            Ok(opcode) => match lookup(instructions, opcode) {
                Some(instruction) => self.execute(instruction),
                None => Err(Fault::UnimplementedOpcode { opcode }),
            },
        }
    }

    /// Runs the machine for at most `steps` instructions.
    ///
    /// As long as the instruction pointer is below `code_end`, one instruction
    /// is executed. The run ends when the instruction pointer is at or past
    /// `code_end`, when an instruction has left it at zero, when an instruction
    /// faults, or when `steps` instructions were executed.
    pub open spec fn run(
        self,
        instructions: Seq<Option<Instruction>>,
        code_end: u32,
        steps: nat,
    ) -> (Machine, Halt)
        decreases steps,
    {
        if self.eip >= code_end {
            (self, Halt::LeftCodeRegion)
        } else if steps == 0 {
            (self, Halt::StepLimit)
        } else {
            match self.step(instructions) {
                Err(fault) => (self, Halt::Fault(fault)),
                Ok(next) => if next.eip == 0 {
                    (next, Halt::ReachedZero)
                } else {
                    next.run(instructions, code_end, (steps - 1) as nat)
                },
            }
        }
    }
}

} // verus!
