use cyber_range::emulator::{Emulator, Fault};

#[test]
fn memory8_write_then_read() {
    let mut emu = Emulator::create(4, 0, 0);
    assert_eq!(emu.set_memory8(3, 0xa5), Ok(()));
    assert_eq!(emu.get_memory8(3), Ok(0xa5));
    assert_eq!(emu.get_memory8(2), Ok(0));
    assert_eq!(emu.memory, vec![0, 0, 0, 0xa5]);
}

#[test]
fn memory8_outside_is_a_fault() {
    let mut emu = Emulator::create(4, 0, 0);
    assert_eq!(emu.get_memory8(4), Err(Fault::OutOfBounds));
    assert_eq!(emu.set_memory8(4, 1), Err(Fault::OutOfBounds));
    assert_eq!(emu.get_memory8(usize::MAX), Err(Fault::OutOfBounds));
    assert_eq!(emu.memory, vec![0; 4]);
}

#[test]
fn memory32_is_little_endian() {
    let mut emu = Emulator::create(16, 0, 0);
    assert_eq!(emu.set_memory32(4, 0x1234_5678), Ok(()));
    assert_eq!(emu.memory[4..8], [0x78, 0x56, 0x34, 0x12]);
    assert_eq!(emu.get_memory32(4), Ok(0x1234_5678));
    assert_eq!(emu.get_memory32(5), Ok(0x0012_3456));
    assert_eq!(emu.get_memory32(3), Ok(0x3456_7800));
}

#[test]
fn memory32_reads_bytes_written_one_by_one() {
    let mut emu = Emulator::create(8, 0, 0);
    emu.set_memory8(0, 0xef).unwrap();
    emu.set_memory8(1, 0xbe).unwrap();
    emu.set_memory8(2, 0xad).unwrap();
    emu.set_memory8(3, 0xde).unwrap();
    assert_eq!(emu.get_memory32(0), Ok(0xdead_beef));
}

#[test]
fn memory32_at_the_last_word() {
    let mut emu = Emulator::create(8, 0, 0);
    assert_eq!(emu.set_memory32(4, 0xffff_ffff), Ok(()));
    assert_eq!(emu.get_memory32(4), Ok(0xffff_ffff));
    assert_eq!(emu.memory, vec![0, 0, 0, 0, 0xff, 0xff, 0xff, 0xff]);
}

#[test]
fn memory32_across_the_end_is_a_fault_and_writes_nothing() {
    let mut emu = Emulator::create(8, 0, 0);
    for address in [5usize, 6, 7, 8, 9, usize::MAX - 2, usize::MAX] {
        assert_eq!(emu.get_memory32(address), Err(Fault::OutOfBounds));
        assert_eq!(emu.set_memory32(address, 0xffff_ffff), Err(Fault::OutOfBounds));
    }
    assert_eq!(emu.memory, vec![0; 8]);
}

#[test]
fn memory32_in_a_memory_shorter_than_a_word() {
    let mut emu = Emulator::create(3, 0, 0);
    assert_eq!(emu.get_memory32(0), Err(Fault::OutOfBounds));
    assert_eq!(emu.set_memory32(0, 1), Err(Fault::OutOfBounds));
    assert_eq!(emu.memory, vec![0; 3]);
}

#[test]
fn load_stores_the_bytes() {
    let mut emu = Emulator::create(8, 0, 0);
    emu.set_memory8(1, 0x11).unwrap();
    assert_eq!(emu.load(2, &[1, 2, 3]), Ok(()));
    assert_eq!(emu.memory, vec![0, 0x11, 1, 2, 3, 0, 0, 0]);
    assert_eq!(emu.load(5, &[7, 8, 9]), Ok(()));
    assert_eq!(emu.memory, vec![0, 0x11, 1, 2, 3, 7, 8, 9]);
    assert_eq!(emu.load(8, &[]), Ok(()));
    assert_eq!(emu.memory, vec![0, 0x11, 1, 2, 3, 7, 8, 9]);
}

#[test]
fn load_that_does_not_fit_is_a_fault_and_writes_nothing() {
    let mut emu = Emulator::create(8, 0, 0);
    assert_eq!(emu.load(6, &[1, 2, 3]), Err(Fault::OutOfBounds));
    assert_eq!(emu.load(9, &[]), Err(Fault::OutOfBounds));
    assert_eq!(emu.load(usize::MAX, &[1, 2]), Err(Fault::OutOfBounds));
    assert_eq!(emu.memory, vec![0; 8]);
}

#[test]
fn code_reads_are_relative_to_eip() {
    let mut emu = Emulator::create(16, 4, 0);
    emu.load(4, &[0x10, 0xfe, 0x78, 0x56, 0x34, 0x12, 0x80]).unwrap();
    assert_eq!(emu.get_code8(0), Ok(0x10));
    assert_eq!(emu.get_code8(1), Ok(0xfe));
    assert_eq!(emu.get_code32(2), Ok(0x1234_5678));
    assert_eq!(emu.get_code8(6), Ok(0x80));
    assert_eq!(emu.eip, 4);
    emu.eip = 5;
    assert_eq!(emu.get_code8(0), Ok(0xfe));
    assert_eq!(emu.get_code32(1), Ok(0x1234_5678));
}

#[test]
fn signed_code_reads() {
    let mut emu = Emulator::create(16, 0, 0);
    emu.load(0, &[0x7f, 0x80, 0xfe, 0xff, 0xff, 0xff, 0x00, 0x00, 0x00, 0x80]).unwrap();
    assert_eq!(emu.get_sign_code8(0), Ok(127));
    assert_eq!(emu.get_sign_code8(1), Ok(-128));
    assert_eq!(emu.get_sign_code8(2), Ok(-2));
    assert_eq!(emu.get_sign_code8(6), Ok(0));
    assert_eq!(emu.get_sign_code32(2), Ok(-2));
    assert_eq!(emu.get_code32(2), Ok(0xffff_fffe));
    assert_eq!(emu.get_sign_code32(6), Ok(i32::MIN));
    assert_eq!(emu.get_sign_code32(0), Ok(0xfffe807fu32 as i32));
}

#[test]
fn code_reads_outside_are_faults() {
    let mut emu = Emulator::create(8, 6, 0);
    assert_eq!(emu.get_code8(1), Ok(0));
    assert_eq!(emu.get_code8(2), Err(Fault::OutOfBounds));
    assert_eq!(emu.get_sign_code8(2), Err(Fault::OutOfBounds));
    assert_eq!(emu.get_code32(0), Err(Fault::OutOfBounds));
    assert_eq!(emu.get_sign_code32(0), Err(Fault::OutOfBounds));
    assert_eq!(emu.get_code8(usize::MAX), Err(Fault::OutOfBounds));
    assert_eq!(emu.get_code32(usize::MAX), Err(Fault::OutOfBounds));
    emu.eip = 0xffff_ffff;
    assert_eq!(emu.get_code8(0), Err(Fault::OutOfBounds));
    assert_eq!(emu.get_code32(1), Err(Fault::OutOfBounds));
}

#[test]
fn push_then_pop_returns_the_value_and_the_stack_pointer() {
    let mut emu = Emulator::create(0x100, 0, 0x80);
    emu.set_register32(0, 0x11);
    assert_eq!(emu.push32(0xdead_beef), Ok(()));
    assert_eq!(emu.get_register32(4), 0x7c);
    assert_eq!(emu.memory[0x7c..0x80], [0xef, 0xbe, 0xad, 0xde]);
    assert_eq!(emu.pop32(), Ok(0xdead_beef));
    assert_eq!(emu.get_register32(4), 0x80);
    assert_eq!(emu.registers, [0x11, 0, 0, 0, 0x80, 0x80, 0, 0]);
}

#[test]
fn pushes_stack_downwards() {
    let mut emu = Emulator::create(0x20, 0, 0x20);
    emu.push32(1).unwrap();
    emu.push32(2).unwrap();
    emu.push32(3).unwrap();
    assert_eq!(emu.get_register32(4), 0x14);
    assert_eq!(emu.get_memory32(0x1c), Ok(1));
    assert_eq!(emu.get_memory32(0x18), Ok(2));
    assert_eq!(emu.get_memory32(0x14), Ok(3));
    assert_eq!(emu.pop32(), Ok(3));
    assert_eq!(emu.pop32(), Ok(2));
    assert_eq!(emu.pop32(), Ok(1));
    assert_eq!(emu.get_register32(4), 0x20);
}

#[test]
fn push_below_the_memory_is_a_fault_and_changes_nothing() {
    let mut emu = Emulator::create(0x20, 0, 2);
    assert_eq!(emu.push32(7), Err(Fault::OutOfBounds));
    assert_eq!(emu.get_register32(4), 2);
    assert_eq!(emu.memory, vec![0; 0x20]);
}

#[test]
fn push_above_the_memory_is_a_fault_and_changes_nothing() {
    let mut emu = Emulator::create(0x20, 0, 0x22);
    assert_eq!(emu.push32(7), Err(Fault::OutOfBounds));
    assert_eq!(emu.get_register32(4), 0x22);
    assert_eq!(emu.memory, vec![0; 0x20]);
}

#[test]
fn push_to_the_first_word() {
    let mut emu = Emulator::create(0x20, 0, 4);
    assert_eq!(emu.push32(0x0102_0304), Ok(()));
    assert_eq!(emu.get_register32(4), 0);
    assert_eq!(emu.memory[0..4], [4, 3, 2, 1]);
}

#[test]
fn pop_outside_the_memory_is_a_fault_and_changes_nothing() {
    let mut emu = Emulator::create(0x20, 0, 0x1d);
    assert_eq!(emu.pop32(), Err(Fault::OutOfBounds));
    assert_eq!(emu.get_register32(4), 0x1d);
    emu.set_register32(4, 0xffff_fffc);
    assert_eq!(emu.pop32(), Err(Fault::OutOfBounds));
    assert_eq!(emu.get_register32(4), 0xffff_fffc);
}
