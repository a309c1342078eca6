use cyber_range::emulator::{init_instructions, Emulator, Fault, Halt, Instruction};

const MEMORY_SIZE: usize = 0x8000;
const ENTRY: u32 = 0x7c00;

fn machine(code: &[u8]) -> Emulator {
    let mut emu = Emulator::create(MEMORY_SIZE, ENTRY, ENTRY);
    emu.load(ENTRY as usize, code).unwrap();
    emu
}

#[test]
fn dispatch_table_has_256_slots() {
    assert_eq!(init_instructions().len(), 256);
}

#[test]
fn dispatch_table_binds_the_listed_opcodes_and_no_other() {
    let mut expected: Vec<Option<Instruction>> = vec![None; 256];
    expected[0x01] = Some(Instruction::AddRm32R32);
    expected[0x38] = Some(Instruction::CmpRm8R8);
    expected[0x3b] = Some(Instruction::CmpR32Rm32);
    expected[0x3c] = Some(Instruction::CmpAlImm8);
    for r in 0..8 {
        expected[0x50 + r] = Some(Instruction::PushR32);
        expected[0x58 + r] = Some(Instruction::PopR32);
        expected[0xb8 + r] = Some(Instruction::MovR32Imm32);
    }
    expected[0x68] = Some(Instruction::PushImm32);
    expected[0x6a] = Some(Instruction::PushImm8);
    expected[0x70] = Some(Instruction::Jo);
    expected[0x71] = Some(Instruction::Jno);
    expected[0x72] = Some(Instruction::Jc);
    expected[0x73] = Some(Instruction::Jnc);
    expected[0x74] = Some(Instruction::Jz);
    expected[0x75] = Some(Instruction::Jnz);
    expected[0x78] = Some(Instruction::Js);
    expected[0x79] = Some(Instruction::Jns);
    expected[0x83] = Some(Instruction::Code83);
    expected[0x88] = Some(Instruction::MovRm8R8);
    expected[0x89] = Some(Instruction::MovRm32R32);
    expected[0x8a] = Some(Instruction::MovR8Rm8);
    expected[0x8b] = Some(Instruction::MovR32Rm32);
    expected[0xc3] = Some(Instruction::Ret);
    expected[0xc7] = Some(Instruction::MovRm32Imm32);
    expected[0xc9] = Some(Instruction::Leave);
    expected[0xe8] = Some(Instruction::CallRel32);
    expected[0xe9] = Some(Instruction::NearJump);
    expected[0xeb] = Some(Instruction::ShortJump);
    expected[0xff] = Some(Instruction::CodeFf);
    assert_eq!(init_instructions(), expected);
    assert_eq!(expected.iter().filter(|slot| slot.is_some()).count(), 50);
}

#[test]
fn execute_runs_the_handler() {
    let mut emu = machine(&[0xb8, 7, 0, 0, 0]);
    assert_eq!(emu.execute(Instruction::MovR32Imm32), Ok(()));
    assert_eq!(emu.get_register32(0), 7);
    assert_eq!(emu.eip, ENTRY + 5);
    assert_eq!(emu.execute(Instruction::ShortJump), Ok(()));
    assert_eq!(emu.eip, ENTRY + 7);
    emu.eip = ENTRY;
    assert_eq!(emu.execute(Instruction::PushImm8), Ok(()));
    assert_eq!(emu.get_memory32(0x7bfc), Ok(7));
}

#[test]
fn step_executes_one_instruction() {
    let table = init_instructions();
    let mut emu = machine(&[0xb9, 0x78, 0x56, 0x34, 0x12, 0x51, 0x58]);
    assert_eq!(emu.step(&table), Ok(()));
    assert_eq!(emu.get_register32(1), 0x1234_5678);
    assert_eq!(emu.eip, ENTRY + 5);
    assert_eq!(emu.step(&table), Ok(()));
    assert_eq!(emu.get_register32(4), ENTRY - 4);
    assert_eq!(emu.eip, ENTRY + 6);
    assert_eq!(emu.step(&table), Ok(()));
    assert_eq!(emu.get_register32(0), 0x1234_5678);
    assert_eq!(emu.get_register32(4), ENTRY);
    assert_eq!(emu.eip, ENTRY + 7);
}

#[test]
fn step_on_an_unbound_opcode_is_a_fault() {
    let table = init_instructions();
    for opcode in [0x00u8, 0x02, 0x37, 0x4f, 0x60, 0x76, 0x77, 0x90, 0xb7, 0xc0, 0xfe] {
        let mut emu = machine(&[opcode, 0xc0, 0, 0, 0, 0]);
        let before = emu.clone();
        assert_eq!(emu.step(&table), Err(Fault::UnimplementedOpcode { opcode }));
        assert_eq!(emu.eip, ENTRY);
        assert_eq!(emu.registers, before.registers);
        assert_eq!(emu.memory, before.memory);
    }
}

#[test]
fn step_passes_on_the_fault_of_the_handler() {
    let table = init_instructions();
    let mut emu = machine(&[0x83, 0xc8, 0x01]);
    assert_eq!(emu.step(&table), Err(Fault::UnimplementedGroup { opcode: 0x83, selector: 1 }));
    assert_eq!(emu.eip, ENTRY);
    let mut emu = machine(&[0xff, 0xc8]);
    assert_eq!(emu.step(&table), Err(Fault::UnimplementedGroup { opcode: 0xff, selector: 1 }));
    let mut emu = machine(&[0x8b, 0x04, 0x24]);
    assert_eq!(emu.step(&table), Err(Fault::UnsupportedAddressing { mode: 0, rm: 4 }));
    let mut emu = machine(&[0x8b, 0x84, 0x24, 0, 0, 0, 0]);
    assert_eq!(emu.step(&table), Err(Fault::UnsupportedAddressing { mode: 2, rm: 4 }));
    let mut emu = machine(&[0xc3]);
    emu.set_register32(4, 0x7ffd);
    assert_eq!(emu.step(&table), Err(Fault::OutOfBounds));
    assert_eq!(emu.eip, ENTRY);
}

#[test]
fn step_outside_the_memory_is_a_fault() {
    let table = init_instructions();
    let mut emu = Emulator::create(0x10, 0x10, 0);
    assert_eq!(emu.step(&table), Err(Fault::OutOfBounds));
    assert_eq!(emu.eip, 0x10);
}

#[test]
fn step_with_a_table_of_its_own() {
    let mut emu = machine(&[0x90, 0x05]);
    let mut table: Vec<Option<Instruction>> = vec![None; 0x91];
    table[0x90] = Some(Instruction::ShortJump);
    assert_eq!(emu.step(&table), Ok(()));
    assert_eq!(emu.eip, ENTRY + 7);
    emu.eip = ENTRY;
    assert_eq!(emu.step(&table[..0x90]), Err(Fault::UnimplementedOpcode { opcode: 0x90 }));
    assert_eq!(emu.step(&[]), Err(Fault::UnimplementedOpcode { opcode: 0x90 }));
    assert_eq!(emu.eip, ENTRY);
}

#[test]
fn run_leaves_the_code_region_through_ret() {
    // mov eax, 1; ret
    let table = init_instructions();
    let mut emu = machine(&[0xb8, 0x01, 0x00, 0x00, 0x00, 0xc3]);
    emu.push32(0x0001_0000).unwrap();
    assert_eq!(emu.run(&table, MEMORY_SIZE as u32, 100), Halt::LeftCodeRegion);
    assert_eq!(emu.get_register32(0), 1);
    assert_eq!(emu.eip, 0x0001_0000);
    assert_eq!(emu.get_register32(4), ENTRY);
}

#[test]
fn run_stops_when_ret_reaches_zero() {
    // mov eax, 1; ret, with the return address zero
    let table = init_instructions();
    let mut emu = machine(&[0xb8, 0x01, 0x00, 0x00, 0x00, 0xc3]);
    emu.push32(0).unwrap();
    assert_eq!(emu.run(&table, MEMORY_SIZE as u32, 100), Halt::ReachedZero);
    assert_eq!(emu.get_register32(0), 1);
    assert_eq!(emu.eip, 0);
}

#[test]
fn run_executes_an_instruction_at_zero() {
    // at address zero: jmp +0x10
    let table = init_instructions();
    let mut emu = Emulator::create(0x40, 0, 0x40);
    emu.load(0, &[0xeb, 0x10]).unwrap();
    emu.load(0x12, &[0xeb, 0x7f]).unwrap();
    assert_eq!(emu.run(&table, 0x40, 100), Halt::LeftCodeRegion);
    assert_eq!(emu.eip, 0x93);
}

#[test]
fn run_stops_at_the_step_limit() {
    // jmp to itself
    let table = init_instructions();
    let mut emu = machine(&[0xeb, 0xfe]);
    assert_eq!(emu.run(&table, MEMORY_SIZE as u32, 1000), Halt::StepLimit);
    assert_eq!(emu.eip, ENTRY);
    // inc eax; jmp to the inc
    let mut emu = machine(&[0xff, 0xc0, 0xeb, 0xfc]);
    assert_eq!(emu.run(&table, MEMORY_SIZE as u32, 7), Halt::StepLimit);
    assert_eq!(emu.get_register32(0), 4);
    assert_eq!(emu.eip, ENTRY + 2);
    assert_eq!(emu.run(&table, MEMORY_SIZE as u32, 1), Halt::StepLimit);
    assert_eq!(emu.get_register32(0), 4);
    assert_eq!(emu.eip, ENTRY);
}

#[test]
fn run_without_steps_executes_nothing() {
    let table = init_instructions();
    let mut emu = machine(&[0xb8, 0x01, 0x00, 0x00, 0x00, 0xc3]);
    assert_eq!(emu.run(&table, MEMORY_SIZE as u32, 0), Halt::StepLimit);
    assert_eq!(emu.get_register32(0), 0);
    assert_eq!(emu.eip, ENTRY);
    assert_eq!(emu.run(&table, ENTRY, 0), Halt::LeftCodeRegion);
    assert_eq!(emu.run(&table, 0, 5), Halt::LeftCodeRegion);
    assert_eq!(emu.eip, ENTRY);
}

#[test]
fn run_reports_the_fault_and_keeps_the_state_before_it() {
    let table = init_instructions();
    // mov eax, 5; then an opcode that is not implemented
    let mut emu = machine(&[0xb8, 0x05, 0x00, 0x00, 0x00, 0x90]);
    assert_eq!(
        emu.run(&table, MEMORY_SIZE as u32, 100),
        Halt::Fault(Fault::UnimplementedOpcode { opcode: 0x90 })
    );
    assert_eq!(emu.get_register32(0), 5);
    assert_eq!(emu.eip, ENTRY + 5);
    // push until the stack leaves the memory
    let mut emu = Emulator::create(0x20, 0x18, 0x0a);
    emu.load(0x18, &[0x50, 0xeb, 0xfd]).unwrap();
    assert_eq!(emu.run(&table, 0x20, 100), Halt::Fault(Fault::OutOfBounds));
    assert_eq!(emu.get_register32(4), 2);
    assert_eq!(emu.eip, 0x18);
    // the code region reaches past the memory
    let mut emu = Emulator::create(0x10, 0x0e, 0);
    emu.load(0x0e, &[0xeb, 0x00]).unwrap();
    assert_eq!(emu.run(&table, 0x100, 100), Halt::Fault(Fault::OutOfBounds));
    assert_eq!(emu.eip, 0x10);
}

#[test]
fn run_sums_in_a_loop() {
    // mov eax, 0; mov ecx, 5; again: add eax, ecx; sub ecx, 1; jnz again; ret
    let table = init_instructions();
    let mut emu = machine(&[
        0xb8, 0x00, 0x00, 0x00, 0x00, // mov eax, 0
        0xb9, 0x05, 0x00, 0x00, 0x00, // mov ecx, 5
        0x01, 0xc8, // add eax, ecx
        0x83, 0xe9, 0x01, // sub ecx, 1
        0x75, 0xf9, // jnz -7
        0xc3, // ret
    ]);
    emu.push32(0xffff_0000).unwrap();
    assert_eq!(emu.run(&table, MEMORY_SIZE as u32, 1000), Halt::LeftCodeRegion);
    assert_eq!(emu.get_register32(0), 15);
    assert_eq!(emu.get_register32(1), 0);
    assert!(emu.is_zero());
    assert_eq!(emu.eip, 0xffff_0000);
    // 2 moves, 5 rounds of 3, 1 ret
    let mut again = machine(&[
        0xb8, 0x00, 0x00, 0x00, 0x00, 0xb9, 0x05, 0x00, 0x00, 0x00, 0x01, 0xc8, 0x83, 0xe9, 0x01,
        0x75, 0xf9, 0xc3,
    ]);
    again.push32(0xffff_0000).unwrap();
    assert_eq!(again.run(&table, MEMORY_SIZE as u32, 17), Halt::StepLimit);
    assert_eq!(again.eip, ENTRY + 17);
    assert_eq!(again.run(&table, MEMORY_SIZE as u32, 1), Halt::LeftCodeRegion);
}

#[test]
fn run_calls_a_function_with_a_frame() {
    // main: push 7; call twice; add esp, 4; ret
    // twice: push ebp; mov ebp, esp; mov eax, [ebp+8]; add eax, eax; leave; ret
    let table = init_instructions();
    let mut emu = machine(&[
        0x6a, 0x07, // push 7
        0xe8, 0x04, 0x00, 0x00, 0x00, // call +4
        0x83, 0xc4, 0x04, // add esp, 4
        0xc3, // ret
        0x55, // push ebp
        0x89, 0xe5, // mov ebp, esp
        0x8b, 0x45, 0x08, // mov eax, [ebp+8]
        0x01, 0xc0, // add eax, eax
        0xc9, // leave
        0xc3, // ret
    ]);
    emu.set_register32(5, 0x1234);
    emu.push32(0).unwrap();
    assert_eq!(emu.run(&table, MEMORY_SIZE as u32, 100), Halt::ReachedZero);
    assert_eq!(emu.get_register32(0), 14);
    assert_eq!(emu.get_register32(4), ENTRY);
    assert_eq!(emu.get_register32(5), 0x1234);
}

#[test]
fn run_compares_bytes_of_a_buffer() {
    // mov al, [ebp-4]; cmp al, 0x41; jz good; mov eax, 0; ret; good: mov eax, 1; ret
    let table = init_instructions();
    let code = [
        0x8a, 0x45, 0xfc, // mov al, [ebp-4]
        0x3c, 0x41, // cmp al, 0x41
        0x74, 0x06, // jz +6
        0xb8, 0x00, 0x00, 0x00, 0x00, // mov eax, 0
        0xc3, // ret
        0xb8, 0x01, 0x00, 0x00, 0x00, // mov eax, 1
        0xc3, // ret
    ];
    let mut right = machine(&code);
    right.set_register32(4, 0x7b00);
    right.load(0x7bfc, b"A").unwrap();
    assert_eq!(right.run(&table, MEMORY_SIZE as u32, 100), Halt::ReachedZero);
    assert_eq!(right.get_register32(0), 1);

    let mut wrong = machine(&code);
    wrong.set_register32(4, 0x7b00);
    wrong.load(0x7bfc, b"B").unwrap();
    assert_eq!(wrong.run(&table, MEMORY_SIZE as u32, 100), Halt::ReachedZero);
    assert_eq!(wrong.get_register32(0), 0);
}

#[test]
fn clones_run_independently() {
    let table = init_instructions();
    let emu = machine(&[0xff, 0xc0, 0xeb, 0xfc]);
    let mut first = emu.clone();
    let mut second = emu.clone();
    assert_eq!(first.run(&table, MEMORY_SIZE as u32, 9), Halt::StepLimit);
    assert_eq!(second.run(&table, MEMORY_SIZE as u32, 3), Halt::StepLimit);
    assert_eq!(first.get_register32(0), 5);
    assert_eq!(second.get_register32(0), 2);
    assert_eq!(emu.get_register32(0), 0);
    assert_eq!(emu.eip, ENTRY);
}
