use lc3::{
    extract_dr, extract_imm5, extract_imm5_flag, extract_offset6, extract_opcode,
    extract_pc_offset11, extract_pc_offset9, extract_sr1, extract_sr2, extract_trap_vector,
    sign_extend, sign_extend_imm5, sign_extend_offset6, sign_extend_pc_offset11,
    sign_extend_pc_offset9, Flags, InstructionExecutor, LC3Error, Opcodes, Registers,
    TrapVectors, REG_COUNT,
};

#[test]
fn fields_of_add_immediate() {
    // ADD R1, R2, #-3
    let word: u16 = 0b0001_001_010_1_11101;
    assert_eq!(extract_opcode(word), 1);
    assert_eq!(extract_dr(word), 1);
    assert_eq!(extract_sr1(word), 2);
    assert!(extract_imm5_flag(word));
    assert_eq!(extract_imm5(word), 0b11101);
    assert_eq!(extract_sr2(word), 0b101);
}

#[test]
fn fields_of_wide_offsets() {
    let word: u16 = 0xABCD;
    assert_eq!(extract_opcode(word), 0xA);
    assert_eq!(extract_pc_offset9(word), 0x1CD);
    assert_eq!(extract_pc_offset11(word), 0x3CD);
    assert_eq!(extract_offset6(word), 0x0D);
    assert_eq!(extract_trap_vector(word), 0xCD);
    assert!(!extract_imm5_flag(0xFFDF));
    assert_eq!(extract_opcode(0xF025), 15);
}

#[test]
fn sign_extend_fixed_widths() {
    assert_eq!(sign_extend_imm5(0x1F), 0xFFFF);
    assert_eq!(sign_extend_imm5(0x10), 0xFFF0);
    assert_eq!(sign_extend_imm5(0x0F), 0x0F);
    assert_eq!(sign_extend_offset6(0x3F), 0xFFFF);
    assert_eq!(sign_extend_offset6(0x20), 0xFFE0);
    assert_eq!(sign_extend_offset6(0x1F), 0x1F);
    assert_eq!(sign_extend_pc_offset9(0x1FF), 0xFFFF);
    assert_eq!(sign_extend_pc_offset9(0x100), 0xFF00);
    assert_eq!(sign_extend_pc_offset9(0x0FF), 0x0FF);
    assert_eq!(sign_extend_pc_offset11(0x7FF), 0xFFFF);
    assert_eq!(sign_extend_pc_offset11(0x400), 0xFC00);
    assert_eq!(sign_extend_pc_offset11(0x3FF), 0x3FF);
}

#[test]
fn sign_extend_gives_twos_complement_value() {
    for &w in &[5usize, 6, 9, 11] {
        let half: u32 = 1 << (w - 1);
        for v in 0..(1u32 << w) {
            let r = sign_extend(v as u16, w);
            if v < half {
                assert_eq!(r, v as u16);
            } else {
                assert_eq!(r as i16 as i32, v as i32 - (1i32 << w));
            }
            let fixed = match w {
                5 => sign_extend_imm5(v as u16),
                6 => sign_extend_offset6(v as u16),
                9 => sign_extend_pc_offset9(v as u16),
                _ => sign_extend_pc_offset11(v as u16),
            };
            assert_eq!(fixed, r);
        }
    }
}

#[test]
fn sign_extend_any_width() {
    assert_eq!(sign_extend(1, 1), 0xFFFF);
    assert_eq!(sign_extend(0, 1), 0);
    assert_eq!(sign_extend(0x8000, 16), 0x8000);
    assert_eq!(sign_extend(0x4000, 15), 0xC000);
    assert_eq!(sign_extend(0x0008, 4), 0xFFF8);
    assert_eq!(InstructionExecutor::sign_extend(0x10, 5), 0xFFF0);
    assert_eq!(InstructionExecutor::sign_extend(0x400, 11), 0xFC00);
    assert_eq!(InstructionExecutor::sign_extend(0x3F, 7), 0x3F);
}

#[test]
fn opcode_table() {
    for n in 0u16..16 {
        let op = Opcodes::from_u16(n).unwrap();
        assert_eq!(op.to_u16(), n);
    }
    assert_eq!(Opcodes::from_u16(16), None);
    assert_eq!(Opcodes::from_u16(1), Some(Opcodes::ADD));
    assert_eq!(Opcodes::from_u16(15), Some(Opcodes::TRAP));
    assert_eq!(Opcodes::LEA.to_string(), "LEA");
    assert_eq!(Opcodes::RES.description(), "Reserved - Unused opcode");
    assert_eq!(
        Opcodes::LDI.description(),
        "Load Indirect - Load from memory address stored in memory"
    );
}

#[test]
fn trap_table() {
    assert_eq!(TrapVectors::from_u16(0x25), Some(TrapVectors::HALT));
    assert_eq!(TrapVectors::from_u16(0x20), Some(TrapVectors::GETC));
    assert_eq!(TrapVectors::from_u16(0x26), None);
    assert_eq!(TrapVectors::from_u16(0x1F), None);
    assert_eq!(TrapVectors::PUTSP.to_u16(), 0x24);
    assert_eq!(TrapVectors::OUT.to_string(), "OUT");
    assert_eq!(TrapVectors::HALT.description(), "Halt the program execution");
}

#[test]
fn register_numbers() {
    assert_eq!(Registers::count(), REG_COUNT);
    assert_eq!(Registers::count(), 11);
    assert_eq!(Registers::from_u16(0), Some(Registers::R0));
    assert_eq!(Registers::from_u16(7), Some(Registers::R7));
    assert_eq!(Registers::from_u16(8), Some(Registers::PC));
    assert_eq!(Registers::from_u16(9), Some(Registers::COND));
    assert_eq!(Registers::from_u16(10), None);
    assert_eq!(Registers::from_u16(0xFFFF), None);
    assert_eq!(Registers::COND.index(), 9);
    assert_eq!(Registers::COUNT.index(), 10);
}

#[test]
fn flag_bits() {
    assert_eq!(Flags::POS.to_u16(), 1);
    assert_eq!(Flags::ZRO.to_u16(), 2);
    assert_eq!(Flags::NEG.to_u16(), 4);
    assert!(Flags::NEG.is_set_in(4));
    assert!(!Flags::NEG.is_set_in(3));
    assert!(Flags::ZRO.is_set_in(7));
    assert!(!Flags::POS.is_set_in(0));
}

#[test]
fn error_texts() {
    assert_eq!(
        LC3Error::InvalidAddress(0x3000).to_string(),
        "Invalid memory address: 0x3000"
    );
    assert_eq!(LC3Error::InvalidAddress(0xA).to_string(), "Invalid memory address: 0x000A");
    assert_eq!(LC3Error::InvalidRegister(12).to_string(), "Invalid register: 12");
    assert_eq!(LC3Error::InvalidOpcode(5).to_string(), "Invalid opcode: 0x05");
    assert_eq!(LC3Error::InvalidTrapVector(0x1FF).to_string(), "Invalid trap vector: 0x1FF");
    assert_eq!(LC3Error::MemoryOutOfBounds.to_string(), "Memory access out of bounds");
    assert_eq!(LC3Error::RegisterOutOfBounds.to_string(), "Register access out of bounds");
    assert_eq!(LC3Error::Custom("boom".to_string()).to_string(), "boom");
}

#[test]
fn conversions() {
    assert_eq!(u16::from(Registers::R0), 0);
    assert_eq!(u16::from(Registers::PC), 8);
    assert_eq!(u16::from(Registers::COND), 9);
    let n: u16 = Registers::R5.into();
    assert_eq!(n, 5);
    assert_eq!(LC3Error::from("bad".to_string()), LC3Error::Custom("bad".to_string()));
    assert_eq!(LC3Error::from("worse"), LC3Error::Custom("worse".to_string()));
}
