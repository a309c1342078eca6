//! Laws of the machine, proved from its model.

use super::execution::Halt;
use super::instruction::{Instruction, ModRM};
use super::machine::{
    high_byte, lemma_flags_disjoint, lemma_with_flag, low_byte, with_high_byte, with_low_byte,
    Machine, CARRY_FLAG, OVERFLOW_FLAG, SIGN_FLAG, ZERO_FLAG,
};
use super::semantics::{dispatch_table, handler_of, lookup};
use super::word::{
    byte_of, le32, lemma_word_of_bytes, low_word, sign_bit, sign_extended, signed8, wrap32,
    wrap64,
};
use super::Fault;
use vstd::prelude::*;

verus! {

/// Byte registers: a write through the 8-bit register `index` is read back
/// from it, and changes the 32-bit register that holds it in bits 0 to 7 only
/// (for `index` 0 to 3) or in bits 8 to 15 only (for `index` 4 to 7). Every
/// other register, and the rest of the machine, stays as it was.
pub proof fn lemma_byte_register_write(machine: Machine, index: int, value: u8)
    requires
        machine.wf(),
        0 <= index < 8,
    ensures
        ({
            let after = machine.set_register8(index, value);
            let home = if index < 4 {
                index
            } else {
                index - 4
            };
            let kept = if index < 4 {
                0xffff_ff00u32
            } else {
                0xffff_00ffu32
            };
            &&& after.get_register8(index) == value
            &&& after.registers[home] & kept == machine.registers[home] & kept
            &&& forall|other: int|
                0 <= other < 8 && other != home ==> after.registers[other]
                    == machine.registers[other]
            &&& after.wf()
            &&& after.memory == machine.memory
            &&& after.eip == machine.eip
            &&& after.eflags == machine.eflags
        }),
{
    let home = if index < 4 {
        index
    } else {
        index - 4
    };
    let w = machine.registers[home];
    assert(low_byte(with_low_byte(w, value)) == value && with_low_byte(w, value) & 0xffff_ff00
        == w & 0xffff_ff00) by (bit_vector);
    assert(high_byte(with_high_byte(w, value)) == value && with_high_byte(w, value) & 0xffff_00ff
        == w & 0xffff_00ff) by (bit_vector);
}

/// The low and the high byte register of one 32-bit register do not overlap:
/// a write through one leaves what is read through the other.
pub proof fn lemma_byte_registers_apart(machine: Machine, index: int, value: u8)
    requires
        machine.wf(),
        0 <= index < 4,
    ensures
        machine.set_register8(index, value).get_register8(index + 4) == machine.get_register8(
            index + 4,
        ),
        machine.set_register8(index + 4, value).get_register8(index) == machine.get_register8(
            index,
        ),
{
    let w = machine.registers[index];
    assert(high_byte(with_low_byte(w, value)) == high_byte(w) && low_byte(
        with_high_byte(w, value),
    ) == low_byte(w)) by (bit_vector);
}

/// A word stored is the word read back, and the store changes the four
/// bytes of the word and no other.
pub proof fn lemma_memory32_round_trip(machine: Machine, address: int, value: u32)
    requires
        machine.mapped(address, 4),
    ensures
        (machine.set_memory32(address, value) matches Ok(next) && {
            &&& next.get_memory32(address) == Ok::<u32, Fault>(value)
            &&& next.memory.len() == machine.memory.len()
            &&& forall|other: int|
                0 <= other < machine.memory.len() && !(address <= other < address + 4)
                    ==> next.memory[other] == machine.memory[other]
        }),
{
    lemma_word_of_bytes(value);
}

/// The reader reads what the bytes at the instruction pointer are.
pub proof fn lemma_holds_code(machine: Machine, code: Seq<u8>, index: int)
    requires
        machine.holds_code(code),
        0 <= index < code.len(),
    ensures
        machine.get_code8(index) == Ok::<u8, Fault>(code[index]),
        machine.get_sign_code8(index) == Ok::<i8, Fault>(signed8(code[index])),
        index + 4 <= code.len() ==> machine.get_code32(index) == Ok::<u32, Fault>(
            le32(code[index], code[index + 1], code[index + 2], code[index + 3]),
        ),
{
    assert(machine.memory[machine.eip + index] == code[index]);
    if index + 4 <= code.len() {
        assert(machine.memory[machine.eip + (index + 1)] == code[index + 1]);
        assert(machine.memory[machine.eip + (index + 2)] == code[index + 2]);
        assert(machine.memory[machine.eip + (index + 3)] == code[index + 3]);
    }
}

/// Push, then pop: where a push succeeds, the pop that follows succeeds too,
/// returns the value pushed, and leaves the stack pointer and every other
/// register as they were before the push.
pub proof fn lemma_push_pop(machine: Machine, value: u32)
    requires
        machine.wf(),
        machine.push32(value) is Ok,
    ensures
        (machine.push32(value)->Ok_0.pop32() matches Ok((popped, after)) && {
            &&& popped == value
            &&& after.esp() == machine.esp()
            &&& after.registers == machine.registers
            &&& after.eip == machine.eip
            &&& after.eflags == machine.eflags
        }),
{
    lemma_word_of_bytes(value);
}

/// Call, then return: where a call succeeds, the `ret` that follows succeeds
/// too and leaves the instruction pointer just past the five bytes of the
/// call, with every register as it was before the call.
pub proof fn lemma_call_ret(machine: Machine)
    requires
        machine.wf(),
        machine.call_rel32() is Ok,
    ensures
        (machine.call_rel32()->Ok_0.ret() matches Ok(after) && {
            &&& after.eip == wrap32(machine.eip + 5)
            &&& after.registers == machine.registers
            &&& after.eflags == machine.eflags
        }),
{
    lemma_push_pop(machine, wrap32(machine.eip + 5));
}

/// The four flags are independent: setting one of them to `on` makes it read
/// `on` and leaves the other three as they were.
pub proof fn lemma_flags_independent(machine: Machine, on: bool)
    ensures
        ({
            let after = machine.set_flag(CARRY_FLAG, on);
            &&& after.is_carry() == on
            &&& after.is_zero() == machine.is_zero()
            &&& after.is_sign() == machine.is_sign()
            &&& after.is_overflow() == machine.is_overflow()
        }),
        ({
            let after = machine.set_flag(ZERO_FLAG, on);
            &&& after.is_zero() == on
            &&& after.is_carry() == machine.is_carry()
            &&& after.is_sign() == machine.is_sign()
            &&& after.is_overflow() == machine.is_overflow()
        }),
        ({
            let after = machine.set_flag(SIGN_FLAG, on);
            &&& after.is_sign() == on
            &&& after.is_carry() == machine.is_carry()
            &&& after.is_zero() == machine.is_zero()
            &&& after.is_overflow() == machine.is_overflow()
        }),
        ({
            let after = machine.set_flag(OVERFLOW_FLAG, on);
            &&& after.is_overflow() == on
            &&& after.is_carry() == machine.is_carry()
            &&& after.is_zero() == machine.is_zero()
            &&& after.is_sign() == machine.is_sign()
        }),
{
    let flags = machine.eflags;
    lemma_flags_disjoint();
    lemma_with_flag(flags, CARRY_FLAG, ZERO_FLAG, on);
    lemma_with_flag(flags, CARRY_FLAG, SIGN_FLAG, on);
    lemma_with_flag(flags, CARRY_FLAG, OVERFLOW_FLAG, on);
    lemma_with_flag(flags, ZERO_FLAG, CARRY_FLAG, on);
    lemma_with_flag(flags, ZERO_FLAG, SIGN_FLAG, on);
    lemma_with_flag(flags, ZERO_FLAG, OVERFLOW_FLAG, on);
    lemma_with_flag(flags, SIGN_FLAG, CARRY_FLAG, on);
    lemma_with_flag(flags, SIGN_FLAG, ZERO_FLAG, on);
    lemma_with_flag(flags, SIGN_FLAG, OVERFLOW_FLAG, on);
    lemma_with_flag(flags, OVERFLOW_FLAG, CARRY_FLAG, on);
    lemma_with_flag(flags, OVERFLOW_FLAG, ZERO_FLAG, on);
    lemma_with_flag(flags, OVERFLOW_FLAG, SIGN_FLAG, on);
}

/// What the four flags are after [`Machine::update_eflags_sub`], for any
/// operands and any 64-bit result.
pub proof fn lemma_update_eflags_sub(machine: Machine, v1: u32, v2: u32, result: u64)
    ensures
        ({
            let after = machine.update_eflags_sub(v1, v2, result);
            &&& after.is_carry() == (result >= 0x1_0000_0000)
            &&& after.is_zero() == (low_word(result) == 0)
            &&& after.is_sign() == sign_bit(low_word(result))
            &&& after.is_overflow() == (sign_bit(v1) != sign_bit(v2) && sign_bit(v1) != sign_bit(
                low_word(result),
            ))
            &&& after.eflags & !0x8c1u32 == machine.eflags & !0x8c1u32
        }),
{
    let carry = result >= 0x1_0000_0000;
    let zero = low_word(result) == 0;
    let sign = sign_bit(low_word(result));
    let overflow = sign_bit(v1) != sign_bit(v2) && sign_bit(v1) != sign;
    let f0 = machine.eflags;
    let f1 = machine.set_flag(CARRY_FLAG, carry).eflags;
    let f2 = machine.set_flag(CARRY_FLAG, carry).set_flag(ZERO_FLAG, zero).eflags;
    let f3 = machine.set_flag(CARRY_FLAG, carry).set_flag(ZERO_FLAG, zero).set_flag(
        SIGN_FLAG,
        sign,
    ).eflags;
    let f4 = machine.update_eflags_sub(v1, v2, result).eflags;
    lemma_flags_disjoint();
    lemma_with_flag(f0, CARRY_FLAG, ZERO_FLAG, carry);
    lemma_with_flag(f1, ZERO_FLAG, CARRY_FLAG, zero);
    lemma_with_flag(f1, ZERO_FLAG, SIGN_FLAG, zero);
    lemma_with_flag(f2, SIGN_FLAG, CARRY_FLAG, sign);
    lemma_with_flag(f2, SIGN_FLAG, ZERO_FLAG, sign);
    lemma_with_flag(f3, OVERFLOW_FLAG, CARRY_FLAG, overflow);
    lemma_with_flag(f3, OVERFLOW_FLAG, ZERO_FLAG, overflow);
    lemma_with_flag(f3, OVERFLOW_FLAG, SIGN_FLAG, overflow);
    assert(!0x8c1u32 & 0x1u32 == 0 && !0x8c1u32 & 0x40u32 == 0 && !0x8c1u32 & 0x80u32 == 0
        && !0x8c1u32 & 0x800u32 == 0) by (bit_vector);
    lemma_with_flag(f0, CARRY_FLAG, !0x8c1u32, carry);
    lemma_with_flag(f1, ZERO_FLAG, !0x8c1u32, zero);
    lemma_with_flag(f2, SIGN_FLAG, !0x8c1u32, sign);
    lemma_with_flag(f3, OVERFLOW_FLAG, !0x8c1u32, overflow);
}

/// Comparing two words: carry says that `a` is below `b`, zero that they
/// are equal, sign that bit 31 of the difference is set, and overflow that `a`
/// and `b` differ in sign and the difference differs in sign from `a`. No
/// other bit of the flags register changes, and nothing else of the machine.
pub proof fn lemma_compare(machine: Machine, a: u32, b: u32)
    ensures
        ({
            let after = machine.compare(a, b);
            &&& after.is_carry() == (a < b)
            &&& after.is_zero() == (a == b)
            &&& after.is_sign() == sign_bit(wrap32(a - b))
            &&& after.is_overflow() == (sign_bit(a) != sign_bit(b) && sign_bit(a) != sign_bit(
                wrap32(a - b),
            ))
            &&& after.eflags & !0x8c1u32 == machine.eflags & !0x8c1u32
            &&& after.registers == machine.registers
            &&& after.memory == machine.memory
            &&& after.eip == machine.eip
        }),
{
    lemma_update_eflags_sub(machine, a, b, wrap64(a - b));
}

/// Comparing a word with itself sets zero and clears carry, sign and overflow.
pub proof fn lemma_compare_equal(machine: Machine, a: u32)
    ensures
        ({
            let after = machine.compare(a, a);
            &&& after.is_zero()
            &&& !after.is_carry()
            &&& !after.is_sign()
            &&& !after.is_overflow()
        }),
{
    lemma_compare(machine, a, a);
}

/// Comparing with an 8-bit immediate: where the operand that `modrm` names
/// is `value` and the byte at the instruction pointer is `imm`, the flags
/// are those of comparing `value` with `imm` sign-extended to a word. So an
/// operand equal to that word sets zero and clears carry, sign and overflow,
/// whatever the sign of `imm`. The instruction pointer moves on by 1 and
/// nothing else changes.
pub proof fn lemma_compare_immediate(machine: Machine, modrm: ModRM, value: u32, imm: i8)
    requires
        machine.get_rm32(modrm) == Ok::<u32, Fault>(value),
        machine.get_sign_code8(0) == Ok::<i8, Fault>(imm),
    ensures
        (machine.cmp_rm32_imm8(modrm) matches Ok(after) && {
            let operand = sign_extended(imm);
            &&& after.is_carry() == (value < operand)
            &&& after.is_zero() == (value == operand)
            &&& after.is_sign() == sign_bit(wrap32(value - operand))
            &&& after.is_overflow() == (sign_bit(value) != sign_bit(operand) && sign_bit(value)
                != sign_bit(wrap32(value - operand)))
            &&& value == operand ==> after.is_zero() && !after.is_carry() && !after.is_sign()
                && !after.is_overflow()
            &&& after.eip == wrap32(machine.eip + 1)
            &&& after.registers == machine.registers
            &&& after.memory == machine.memory
        }),
{
    lemma_compare(machine.advance(1), value, sign_extended(imm));
}

/// Subtracting an 8-bit immediate: where the operand that `modrm` names is
/// `value` and the byte at the instruction pointer is `imm`, the operand
/// becomes `value` minus `imm` sign-extended to a word, modulo 2^32, and the
/// flags are those of comparing `value` with that word. The instruction
/// pointer moves on by 1.
pub proof fn lemma_subtract_immediate(machine: Machine, modrm: ModRM, value: u32, imm: i8)
    requires
        machine.wf(),
        modrm.wf(),
        machine.get_rm32(modrm) == Ok::<u32, Fault>(value),
        machine.get_sign_code8(0) == Ok::<i8, Fault>(imm),
    ensures
        (machine.sub_rm32_imm8(modrm) matches Ok(after) && {
            let operand = sign_extended(imm);
            &&& after.get_rm32(modrm) == Ok::<u32, Fault>(wrap32(value - operand))
            &&& after.is_carry() == (value < operand)
            &&& after.is_zero() == (value == operand)
            &&& after.is_sign() == sign_bit(wrap32(value - operand))
            &&& after.is_overflow() == (sign_bit(value) != sign_bit(operand) && sign_bit(value)
                != sign_bit(wrap32(value - operand)))
            &&& after.eip == wrap32(machine.eip + 1)
        }),
{
    let operand = sign_extended(imm);
    let difference = wrap32(value - operand);
    let stored = machine.advance(1).set_rm32(modrm, difference)->Ok_0;
    if modrm.mode != 3 {
        let address = machine.calc_memory_address(modrm)->Ok_0;
        lemma_memory32_round_trip(machine.advance(1), address as int, difference);
    }
    lemma_compare(stored, value, operand);
}

/// Any operand of mode 1 or 2 whose `rm` is not 4 lies at the register `rm`
/// plus the displacement, modulo 2^32.
pub proof fn lemma_displaced_addressing(machine: Machine, modrm: ModRM)
    requires
        machine.wf(),
        modrm.wf(),
        modrm.mode == 1 || modrm.mode == 2,
        modrm.rm != 4,
    ensures
        machine.calc_memory_address(modrm) == Ok::<u32, Fault>(
            wrap32(machine.get_register32(modrm.rm_index()) + modrm.disp),
        ),
{
}

/// Addressing by register plus 8-bit displacement: a ModRM byte of mode 1
/// whose `rm` is not 4, followed by the byte `disp`, decodes to an operand at
/// the address that is the register `rm` plus the sign-extended `disp`,
/// modulo 2^32. Reads and writes of either width through it reach the memory
/// there.
pub proof fn lemma_mode1_addressing(machine: Machine, code: u8, disp: u8, value8: u8, value32: u32)
    requires
        machine.wf(),
        code / 0x40 == 1,
        code % 8 != 4,
        machine.holds_code(seq![code, disp]),
    ensures
        (machine.parse_modrm() matches Ok((modrm, decoded)) && {
            let address = wrap32(decoded.get_register32(modrm.rm_index()) + signed8(disp));
            &&& modrm.mode == 1
            &&& modrm.rm == code % 8
            &&& modrm.reg == code / 8 % 8
            &&& modrm.disp == signed8(disp)
            &&& decoded == machine.advance(2)
            &&& decoded.calc_memory_address(modrm) == Ok::<u32, Fault>(address)
            &&& decoded.get_rm8(modrm) == decoded.get_memory8(address as int)
            &&& decoded.get_rm32(modrm) == decoded.get_memory32(address as int)
            &&& decoded.set_rm8(modrm, value8) == decoded.set_memory8(address as int, value8)
            &&& decoded.set_rm32(modrm, value32) == decoded.set_memory32(address as int, value32)
        }),
{
    lemma_holds_code(machine, seq![code, disp], 0);
    lemma_holds_code(machine, seq![code, disp], 1);
}

/// Loading an immediate: where the bytes at the instruction pointer are the
/// opcode B8 plus a register number and then the four bytes of `value`, least
/// significant first, `mov r32, imm32` puts `value` in that register, moves
/// the instruction pointer on by 5, and changes nothing else.
pub proof fn lemma_mov_r32_imm32(machine: Machine, register: int, value: u32)
    requires
        machine.wf(),
        0 <= register < 8,
        machine.holds_code(
            seq![
                (0xb8 + register) as u8,
                byte_of(value, 0),
                byte_of(value, 1),
                byte_of(value, 2),
                byte_of(value, 3),
            ],
        ),
    ensures
        handler_of(0xb8 + register) == Some(Instruction::MovR32Imm32),
        (machine.mov_r32_imm32() matches Ok(next) && {
            &&& next.get_register32(register) == value
            &&& next.eip == wrap32(machine.eip + 5)
            &&& machine.eip + 5 < 0x1_0000_0000 ==> next.eip == machine.eip + 5
            &&& forall|other: int|
                0 <= other < 8 && other != register ==> next.get_register32(other)
                    == machine.get_register32(other)
            &&& next.memory == machine.memory
            &&& next.eflags == machine.eflags
        }),
{
    let opcode = (0xb8 + register) as u8;
    let code = seq![
        opcode,
        byte_of(value, 0),
        byte_of(value, 1),
        byte_of(value, 2),
        byte_of(value, 3),
    ];
    assert(machine.get_code8(0) == Ok::<u8, Fault>(opcode)) by {
        lemma_holds_code(machine, code, 0);
    }
    assert(machine.get_code32(1) == Ok::<u32, Fault>(value)) by {
        lemma_holds_code(machine, code, 1);
        lemma_word_of_bytes(value);
    }
}

/// A conditional jump on the zero flag: where the bytes at the instruction
/// pointer are the opcode 74 and the byte `disp`, `jz` with the zero flag set
/// moves the instruction pointer by 2 plus the sign-extended `disp`, modulo
/// 2^32, so that a `disp` of -2 leaves it where it is; with the zero flag
/// clear it moves it by 2. Nothing else changes.
pub proof fn lemma_jz(machine: Machine, disp: u8)
    requires
        machine.wf(),
        machine.holds_code(seq![0x74u8, disp]),
    ensures
        handler_of(0x74) == Some(Instruction::Jz),
        (machine.jz() matches Ok(next) && {
            &&& machine.is_zero() ==> next.eip == wrap32(machine.eip + signed8(disp) + 2)
            &&& !machine.is_zero() ==> next.eip == wrap32(machine.eip + 2)
            &&& next == machine.jump(next.eip)
        }),
        machine.is_zero() && disp == 0xfe ==> machine.jz() == Ok::<Machine, Fault>(machine),
{
    lemma_holds_code(machine, seq![0x74u8, disp], 1);
}

/// A conditional jump that is not taken does not look at its displacement:
/// it moves the instruction pointer by 2 whatever follows the opcode, even
/// nothing.
pub proof fn lemma_jump_not_taken(machine: Machine)
    ensures
        machine.jump_if(false) == Ok::<Machine, Fault>(machine.advance(2)),
{
}

/// One step with the full dispatch table runs the handler bound to the
/// opcode at the instruction pointer, and faults where none is bound.
pub proof fn lemma_step(machine: Machine, opcode: u8)
    requires
        machine.get_code8(0) == Ok::<u8, Fault>(opcode),
    ensures
        handler_of(opcode as int) matches Some(instruction) ==> machine.step(dispatch_table())
            == machine.execute(instruction),
        handler_of(opcode as int) is None ==> machine.step(dispatch_table()) == Err::<
            Machine,
            Fault,
        >(Fault::UnimplementedOpcode { opcode }),
{
}

/// The size of the memory and the number of registers are fixed: no
/// instruction changes them.
#[verifier::rlimit(40)]
pub proof fn lemma_execute_keeps_shape(machine: Machine, instruction: Instruction)
    requires
        machine.wf(),
    ensures
        machine.execute(instruction) matches Ok(next) ==> next.wf() && next.memory.len()
            == machine.memory.len(),
{
}

/// Only the comparisons and the group of arithmetic with an immediate define
/// flags: every other instruction leaves the flags register as it is.
#[verifier::rlimit(40)]
pub proof fn lemma_execute_keeps_flags(machine: Machine, instruction: Instruction)
    requires
        machine.wf(),
        instruction != Instruction::CmpRm8R8,
        instruction != Instruction::CmpR32Rm32,
        instruction != Instruction::CmpAlImm8,
        instruction != Instruction::Code83,
    ensures
        machine.execute(instruction) matches Ok(next) ==> next.eflags == machine.eflags,
{
}

/// Where a run ends: past the code region if it left it, at zero if it
/// reached zero, inside the code region if it ran out of steps or faulted;
/// and a fault is the fault of the instruction at which the machine stands.
/// The size of the memory is that of the start.
pub proof fn lemma_run_end(
    machine: Machine,
    instructions: Seq<Option<Instruction>>,
    code_end: u32,
    steps: nat,
)
    requires
        machine.wf(),
    ensures
        ({
            let (after, halt) = machine.run(instructions, code_end, steps);
            &&& after.wf()
            &&& after.memory.len() == machine.memory.len()
            &&& halt == Halt::LeftCodeRegion ==> after.eip >= code_end
            &&& halt == Halt::ReachedZero ==> after.eip == 0
            &&& halt == Halt::StepLimit ==> after.eip < code_end
            &&& halt matches Halt::Fault(fault) ==> after.eip < code_end && after.step(instructions)
                == Err::<Machine, Fault>(fault)
        }),
    decreases steps,
{
    if machine.eip < code_end && steps > 0 {
        match machine.step(instructions) {
            Ok(next) => {
                let opcode = machine.get_code8(0)->Ok_0;
                lemma_execute_keeps_shape(machine, lookup(instructions, opcode)->0);
                if next.eip != 0 {
                    lemma_run_end(next, instructions, code_end, (steps - 1) as nat);
                }
            },
            Err(fault) => {},
        }
    }
}

/// A run may be taken in parts: a run of `first + second` steps is a run of
/// `first` steps, followed, if that one ended for want of steps, by a run of
/// `second` steps from where it ended.
pub proof fn lemma_run_in_parts(
    machine: Machine,
    instructions: Seq<Option<Instruction>>,
    code_end: u32,
    first: nat,
    second: nat,
)
    ensures
        machine.run(instructions, code_end, first + second) == ({
            let (between, halt) = machine.run(instructions, code_end, first);
            if halt == Halt::StepLimit {
                between.run(instructions, code_end, second)
            } else {
                (between, halt)
            }
        }),
    decreases first,
{
    if machine.eip < code_end && first > 0 {
        match machine.step(instructions) {
            Ok(next) => {
                if next.eip != 0 {
                    lemma_run_in_parts(next, instructions, code_end, (first - 1) as nat, second);
                }
            },
            Err(fault) => {},
        }
    }
}

/// A run that ended for another reason than the step limit ends the same
/// way, in the same state, with any larger number of steps.
pub proof fn lemma_run_with_more_steps(
    machine: Machine,
    instructions: Seq<Option<Instruction>>,
    code_end: u32,
    steps: nat,
    more: nat,
)
    requires
        machine.run(instructions, code_end, steps).1 != Halt::StepLimit,
    ensures
        machine.run(instructions, code_end, steps + more) == machine.run(
            instructions,
            code_end,
            steps,
        ),
{
    lemma_run_in_parts(machine, instructions, code_end, steps, more);
}

} // verus!
