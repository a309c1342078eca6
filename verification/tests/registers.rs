use cyber_range::emulator::{Emulator, Register, REGISTER_COUNT};

#[test]
fn create_initialises_the_machine() {
    let emu = Emulator::create(0x8000, 0x7c00, 0x7bf0);
    assert_eq!(emu.registers, [0, 0, 0, 0, 0x7bf0, 0x7bf0, 0, 0]);
    assert_eq!(emu.eflags, 0);
    assert_eq!(emu.eip, 0x7c00);
    assert_eq!(emu.memory.len(), 0x8000);
    assert!(emu.memory.iter().all(|b| *b == 0));
}

#[test]
fn create_with_empty_memory() {
    let emu = Emulator::create(0, 0, 0);
    assert_eq!(emu.memory.len(), 0);
    assert_eq!(emu.registers, [0; 8]);
}

#[test]
fn register_indices_follow_the_encoding() {
    assert_eq!(REGISTER_COUNT, 8);
    assert_eq!(Register::EAX.index(), 0);
    assert_eq!(Register::ECX.index(), 1);
    assert_eq!(Register::EDX.index(), 2);
    assert_eq!(Register::EBX.index(), 3);
    assert_eq!(Register::ESP.index(), 4);
    assert_eq!(Register::EBP.index(), 5);
    assert_eq!(Register::ESI.index(), 6);
    assert_eq!(Register::EDI.index(), 7);
}

#[test]
fn register_from_index_round_trip() {
    for i in 0..8 {
        assert_eq!(Register::from_index(i).unwrap().index(), i);
    }
    assert_eq!(Register::from_index(3), Some(Register::EBX));
    assert_eq!(Register::from_index(8), None);
    assert_eq!(Register::from_index(usize::MAX), None);
}

#[test]
fn register32_write_then_read() {
    let mut emu = Emulator::create(16, 0, 0);
    for i in 0..8 {
        emu.set_register32(i, 0x1000_0000 + i as u32);
    }
    for i in 0..8 {
        assert_eq!(emu.get_register32(i), 0x1000_0000 + i as u32);
    }
    assert_eq!(emu.registers[7], 0x1000_0007);
}

#[test]
fn register8_reads_low_and_high_bytes() {
    let mut emu = Emulator::create(16, 0, 0);
    emu.set_register32(0, 0x1234_5678);
    emu.set_register32(1, 0x9abc_def0);
    emu.set_register32(2, 0x0000_ff00);
    emu.set_register32(3, 0xffff_00ff);
    assert_eq!(emu.get_register8(0), 0x78);
    assert_eq!(emu.get_register8(1), 0xf0);
    assert_eq!(emu.get_register8(2), 0x00);
    assert_eq!(emu.get_register8(3), 0xff);
    assert_eq!(emu.get_register8(4), 0x56);
    assert_eq!(emu.get_register8(5), 0xde);
    assert_eq!(emu.get_register8(6), 0xff);
    assert_eq!(emu.get_register8(7), 0x00);
}

#[test]
fn register8_high_write_changes_bits_8_to_15_only() {
    let mut emu = Emulator::create(16, 0, 0);
    emu.set_register32(0, 0x1234_5678);
    emu.set_register8(4, 0xab);
    assert_eq!(emu.get_register32(0), 0x1234_ab78);
    assert_eq!(emu.get_register8(4), 0xab);
    assert_eq!(emu.get_register8(0), 0x78);
    assert_eq!(emu.registers, [0x1234_ab78, 0, 0, 0, 0, 0, 0, 0]);
}

#[test]
fn register8_low_write_changes_bits_0_to_7_only() {
    let mut emu = Emulator::create(16, 0, 0);
    emu.set_register32(0, 0x1234_5678);
    emu.set_register8(0, 0xcd);
    assert_eq!(emu.get_register32(0), 0x1234_56cd);
    assert_eq!(emu.get_register8(4), 0x56);
}

#[test]
fn register8_writes_reach_the_first_four_registers() {
    for index in 0..8usize {
        let mut emu = Emulator::create(16, 0, 0);
        for i in 0..8 {
            emu.set_register32(i, 0xa1b2_c3d4);
        }
        emu.set_register8(index, 0x00);
        let home = index % 4;
        let expected = if index < 4 { 0xa1b2_c300 } else { 0xa1b2_00d4 };
        for i in 0..8 {
            if i == home {
                assert_eq!(emu.get_register32(i), expected);
            } else {
                assert_eq!(emu.get_register32(i), 0xa1b2_c3d4);
            }
        }
        assert_eq!(emu.get_register8(index), 0);
    }
}

#[test]
fn register8_write_leaves_memory_flags_and_eip() {
    let mut emu = Emulator::create(4, 2, 0);
    emu.eflags = 0x8c1;
    emu.memory[1] = 9;
    emu.set_register8(7, 0x11);
    assert_eq!(emu.get_register32(3), 0x1100);
    assert_eq!(emu.eflags, 0x8c1);
    assert_eq!(emu.eip, 2);
    assert_eq!(emu.memory, vec![0, 9, 0, 0]);
}

#[test]
fn clone_is_independent() {
    let mut emu = Emulator::create(8, 1, 4);
    let copy = emu.clone();
    emu.set_register32(0, 7);
    emu.set_memory8(3, 0xff).unwrap();
    emu.eip = 5;
    assert_eq!(copy.registers, [0, 0, 0, 0, 4, 4, 0, 0]);
    assert_eq!(copy.memory, vec![0; 8]);
    assert_eq!(copy.eip, 1);
}
