use lc3::{Flags, LC3Error, Memory, RegisterFile, Registers, MEMORY_MAX};

#[test]
fn register_file_starts_zeroed() {
    let regs = RegisterFile::new();
    for r in [
        Registers::R0,
        Registers::R3,
        Registers::R7,
        Registers::PC,
        Registers::COND,
        Registers::COUNT,
    ] {
        assert_eq!(regs.read(r), Some(0));
    }
    assert_eq!(RegisterFile::default().get_pc(), 0);
}

#[test]
fn register_write_then_read() {
    let mut regs = RegisterFile::new();
    assert_eq!(regs.write(Registers::R5, 0xBEEF), Ok(()));
    assert_eq!(regs.read(Registers::R5), Some(0xBEEF));
    assert_eq!(regs.read(Registers::R4), Some(0));
    assert_eq!(regs.set_pc(0x3000), Ok(()));
    assert_eq!(regs.get_pc(), 0x3000);
    assert_eq!(regs.read(Registers::PC), Some(0x3000));
}

#[test]
fn condition_code_from_sign() {
    let mut regs = RegisterFile::new();
    let cases: [(u16, u16); 6] =
        [(0, 2), (1, 1), (0x7FFF, 1), (0x8000, 4), (0xFFFF, 4), (0x1234, 1)];
    for (value, cond) in cases {
        assert_eq!(regs.update_condition_code(value), Ok(()));
        assert_eq!(regs.get_condition_code(), cond);
        let set = [Flags::POS, Flags::ZRO, Flags::NEG]
            .iter()
            .filter(|f| regs.is_flag_set(**f))
            .count();
        assert_eq!(set, 1);
    }
    regs.update_condition_code(0x8001).unwrap();
    assert!(regs.is_flag_set(Flags::NEG));
    assert!(!regs.is_flag_set(Flags::POS));
    assert!(!regs.is_flag_set(Flags::ZRO));
}

#[test]
fn pc_increment_wraps() {
    let mut regs = RegisterFile::new();
    regs.set_pc(0x3000).unwrap();
    assert_eq!(regs.increment_pc(), Ok(()));
    assert_eq!(regs.get_pc(), 0x3001);
    regs.set_pc(0xFFFF).unwrap();
    regs.increment_pc().unwrap();
    assert_eq!(regs.get_pc(), 0);
}

#[test]
fn memory_starts_zeroed() {
    let mem = Memory::new();
    assert_eq!(mem.read(0), Some(0));
    assert_eq!(mem.read(0xFFFF), Some(0));
    assert_eq!(Memory::default().read(0x3000), Some(0));
    assert_eq!(MEMORY_MAX, 65536);
}

#[test]
fn memory_write_then_read() {
    let mut mem = Memory::new();
    for (address, value) in [(0u16, 1u16), (0x3000, 0xABCD), (0xFFFF, 0x8000)] {
        assert_eq!(mem.write(address, value), Ok(()));
        assert_eq!(mem.read(address), Some(value));
    }
    assert_eq!(mem.read(0x3001), Some(0));
    mem.write(0x3000, 7).unwrap();
    assert_eq!(mem.read(0x3000), Some(7));
}

#[test]
fn load_program_places_words() {
    let mut mem = Memory::new();
    assert_eq!(mem.load_program(0x3000, &[1, 2, 3]), Ok(3));
    assert_eq!(mem.read(0x2FFF), Some(0));
    assert_eq!(mem.read(0x3000), Some(1));
    assert_eq!(mem.read(0x3001), Some(2));
    assert_eq!(mem.read(0x3002), Some(3));
    assert_eq!(mem.read(0x3003), Some(0));
    assert_eq!(mem.load_program(0x4000, &[]), Ok(0));
}

#[test]
fn load_program_up_to_last_address() {
    let mut mem = Memory::new();
    assert_eq!(mem.load_program(0xFFFE, &[9, 8]), Ok(2));
    assert_eq!(mem.read(0xFFFE), Some(9));
    assert_eq!(mem.read(0xFFFF), Some(8));
    assert_eq!(mem.read(0), Some(0));
}

#[test]
fn load_program_past_end_writes_nothing() {
    let mut mem = Memory::new();
    assert_eq!(mem.load_program(0xFFFF, &[5, 6]), Err(LC3Error::MemoryOutOfBounds));
    assert_eq!(mem.read(0xFFFF), Some(0));
    assert_eq!(mem.read(0), Some(0));
    let big = vec![1u16; MEMORY_MAX + 1];
    assert_eq!(mem.load_program(0, &big), Err(LC3Error::MemoryOutOfBounds));
    assert_eq!(mem.read(0), Some(0));
}

#[test]
fn fetch_reads_then_advances() {
    let mut mem = Memory::new();
    let mut regs = RegisterFile::new();
    mem.load_program(0x3000, &[0x1234, 0x5678]).unwrap();
    regs.set_pc(0x3000).unwrap();
    assert_eq!(mem.fetch_instruction(&mut regs), Some(0x1234));
    assert_eq!(regs.get_pc(), 0x3001);
    assert_eq!(mem.fetch_instruction(&mut regs), Some(0x5678));
    assert_eq!(regs.get_pc(), 0x3002);
    mem.write(0xFFFF, 0xAAAA).unwrap();
    regs.set_pc(0xFFFF).unwrap();
    assert_eq!(mem.fetch_instruction(&mut regs), Some(0xAAAA));
    assert_eq!(regs.get_pc(), 0);
}

#[test]
fn memory_slice_is_cut_at_the_end() {
    let mut mem = Memory::new();
    mem.load_program(0x3000, &[4, 5, 6]).unwrap();
    assert_eq!(mem.get_memory_slice(0x3000, 3), &[4, 5, 6]);
    assert_eq!(mem.get_memory_slice(0x2FFF, 2), &[0, 4]);
    assert_eq!(mem.get_memory_slice(0xFFFE, 10).len(), 2);
    assert_eq!(mem.get_memory_slice(MEMORY_MAX + 5, 3).len(), 0);
    assert_eq!(mem.get_memory_slice(5, usize::MAX).len(), MEMORY_MAX - 5);
}
