use vstd::prelude::*;

verus! {

use crate::memory::Memory;
use crate::registers::{cond_slot, is_single_flag, pc_slot, RegisterFile};
use crate::text::{append_decimal, append_hex, hex_text};
use crate::types::{
    dr_field, extract_dr, extract_imm5, extract_imm5_flag, extract_offset6, extract_opcode,
    extract_pc_offset11, extract_pc_offset9, extract_sr1, extract_sr2, extract_trap_vector,
    field_signed, flag_of, imm5_field, imm_flag_field, jsr_long_field, offset6_field,
    opcode_field, pc_offset11_field, pc_offset9_field, sign_extend_imm5, sign_extend_offset6,
    sign_extend_pc_offset11, sign_extend_pc_offset9, sr1_field, sr2_field, trap_vector_field,
    word_of, word_signed, Flags, Opcodes, Registers, TrapVectors, REG_COUNT, MEMORY_MAX,
};
use vstd::arithmetic::power2::pow2;
use vstd::string::StringExecFns;

/// What executing one instruction asks of the controller.
#[derive(Debug, PartialEq)]
pub enum ExecutionResult {
    /// Go on with the next instruction.
    Continue,
    /// Stop: the program executed the HALT trap.
    Halt,
    /// Stop on a fault, described in words.
    Error(String),
}

/// Executes single instructions against a register file and a memory.
pub struct InstructionExecutor;

// The meaning of one instruction, over the views of the register file and
// the memory before it runs.

/// Slot of R7, where JSR saves the return address.
pub open spec fn link_slot() -> int {
    Registers::R7.spec_index() as int
}

/// `regs` after writing `value` into register `dr` and setting COND from it.
pub open spec fn with_result(regs: Seq<u16>, dr: u16, value: u16) -> Seq<u16> {
    regs.update(dr as int, value).update(cond_slot(), flag_of(value).spec_to_u16())
}

/// PC plus the sign-extended 9-bit offset, modulo 2^16.
pub open spec fn pc_relative(ins: u16, regs: Seq<u16>) -> u16 {
    word_of(regs[pc_slot()] + field_signed(pc_offset9_field(ins) as int, 9))
}

/// The base register plus the sign-extended 6-bit offset, modulo 2^16.
pub open spec fn base_relative(ins: u16, regs: Seq<u16>) -> u16 {
    word_of(regs[sr1_field(ins) as int] + field_signed(offset6_field(ins) as int, 6))
}

/// Second operand of ADD and AND: the sign-extended immediate or SR2.
pub open spec fn second_operand(ins: u16, regs: Seq<u16>) -> u16 {
    if imm_flag_field(ins) {
        word_of(field_signed(imm5_field(ins) as int, 5))
    } else {
        regs[sr2_field(ins) as int]
    }
}

/// Result of ADD: the sum modulo 2^16.
pub open spec fn add_result(ins: u16, regs: Seq<u16>) -> u16 {
    word_of(regs[sr1_field(ins) as int] + second_operand(ins, regs))
}

/// Result of AND.
pub open spec fn and_result(ins: u16, regs: Seq<u16>) -> u16 {
    regs[sr1_field(ins) as int] & second_operand(ins, regs)
}

/// Result of NOT: the complement of every bit.
pub open spec fn not_result(ins: u16, regs: Seq<u16>) -> u16 {
    (0xFFFF - regs[sr1_field(ins) as int]) as u16
}

/// Whether BR branches: its NZP mask shares a bit with COND.
pub open spec fn branch_taken(ins: u16, regs: Seq<u16>) -> bool {
    dr_field(ins) & regs[cond_slot()] != 0
}

/// `regs` after JSR/JSRR: R7 takes the PC, then the PC takes the target,
/// PC-relative when bit 11 is set, else the base register (read after R7
/// was written).
pub open spec fn jsr_registers(ins: u16, regs: Seq<u16>) -> Seq<u16> {
    let saved = regs.update(link_slot(), regs[pc_slot()]);
    let target = if jsr_long_field(ins) {
        word_of(regs[pc_slot()] + field_signed(pc_offset11_field(ins) as int, 11))
    } else {
        saved[sr1_field(ins) as int]
    };
    saved.update(pc_slot(), target)
}

/// The register file after executing `ins`.
pub open spec fn registers_after(ins: u16, mem: Seq<u16>, regs: Seq<u16>) -> Seq<u16> {
    let dr = dr_field(ins);
    match opcode_field(ins) {
        0 => if branch_taken(ins, regs) {
            regs.update(pc_slot(), pc_relative(ins, regs))
        } else {
            regs
        },
        1 => with_result(regs, dr, add_result(ins, regs)),
        2 => with_result(regs, dr, mem[pc_relative(ins, regs) as int]),
        4 => jsr_registers(ins, regs),
        5 => with_result(regs, dr, and_result(ins, regs)),
        6 => with_result(regs, dr, mem[base_relative(ins, regs) as int]),
        9 => with_result(regs, dr, not_result(ins, regs)),
        10 => with_result(regs, dr, mem[mem[pc_relative(ins, regs) as int] as int]),
        12 => regs.update(pc_slot(), regs[sr1_field(ins) as int]),
        14 => with_result(regs, dr, pc_relative(ins, regs)),
        _ => regs,
    }
}

/// The memory after executing `ins`.
pub open spec fn memory_after(ins: u16, mem: Seq<u16>, regs: Seq<u16>) -> Seq<u16> {
    let source = regs[dr_field(ins) as int];
    match opcode_field(ins) {
        3 => mem.update(pc_relative(ins, regs) as int, source),
        7 => mem.update(base_relative(ins, regs) as int, source),
        11 => mem.update(mem[pc_relative(ins, regs) as int] as int, source),
        _ => mem,
    }
}

/// Whether `ins` is the HALT trap.
pub open spec fn halts(ins: u16) -> bool {
    opcode_field(ins) == 15 && trap_vector_field(ins) == 0x25
}

/// Whether TRAP `ins` names no service routine.
pub open spec fn unknown_trap(ins: u16) -> bool {
    !(0x20 <= trap_vector_field(ins) <= 0x25)
}

/// Whether `ins` faults: RTI, the reserved opcode, or an unknown trap.
pub open spec fn faults(ins: u16) -> bool {
    opcode_field(ins) == 8 || opcode_field(ins) == 13 || (opcode_field(ins) == 15 && unknown_trap(
        ins,
    ))
}

/// The description of the fault of `ins`.
pub open spec fn fault_message(ins: u16) -> Seq<char> {
    if opcode_field(ins) == 8 {
        "RTI instruction not implemented"@
    } else if opcode_field(ins) == 13 {
        "RES instruction is reserved"@
    } else {
        "Unknown trap vector: 0x"@ + hex_text(trap_vector_field(ins) as nat, 2)
    }
}


/// Whether `ins` writes a result register and sets COND from it: ADD, LD,
/// AND, LDR, NOT, LDI and LEA.
pub open spec fn sets_condition_codes(ins: u16) -> bool {
    let op = opcode_field(ins);
    op == 1 || op == 2 || op == 5 || op == 6 || op == 9 || op == 10 || op == 14
}

/// The three flag bits and how they meet.
proof fn lemma_flag_bits()
    by (bit_vector)
    ensures
        1u16 & 1u16 != 0u16,
        1u16 & 2u16 == 0u16,
        1u16 & 4u16 == 0u16,
        2u16 & 1u16 == 0u16,
        2u16 & 2u16 != 0u16,
        2u16 & 4u16 == 0u16,
        4u16 & 1u16 == 0u16,
        4u16 & 2u16 == 0u16,
        4u16 & 4u16 != 0u16,
{
}

/// After an instruction that sets the condition codes, COND holds exactly
/// one of POS, ZRO and NEG: NEG when the result read as signed is negative,
/// ZRO when it is zero, POS when it is positive.
pub proof fn lemma_result_sets_one_flag(ins: u16, mem: Seq<u16>, regs: Seq<u16>)
    requires
        regs.len() == REG_COUNT,
        sets_condition_codes(ins),
    ensures
        ({
            let after = registers_after(ins, mem, regs);
            let value = after[dr_field(ins) as int];
            let cond = after[cond_slot()];
            &&& is_single_flag(cond)
            &&& (cond & Flags::NEG.spec_to_u16() != 0) <==> word_signed(value) < 0
            &&& (cond & Flags::ZRO.spec_to_u16() != 0) <==> word_signed(value) == 0
            &&& (cond & Flags::POS.spec_to_u16() != 0) <==> word_signed(value) > 0
        }),
{
    lemma_flag_bits();
    crate::types::lemma_field_masks(ins);
}

/// ADD and AND never fault and never halt; ADD's result is the sum of its
/// operands modulo 2^16.
pub proof fn lemma_add_and_wrap(ins: u16, mem: Seq<u16>, regs: Seq<u16>)
    requires
        regs.len() == REG_COUNT,
        opcode_field(ins) == 1 || opcode_field(ins) == 5,
    ensures
        !faults(ins),
        !halts(ins),
        opcode_field(ins) == 1 ==> registers_after(ins, mem, regs)[dr_field(ins) as int] == (
        regs[sr1_field(ins) as int] + second_operand(ins, regs)) % 0x10000,
        opcode_field(ins) == 5 ==> registers_after(ins, mem, regs)[dr_field(ins) as int]
            == regs[sr1_field(ins) as int] & second_operand(ins, regs),
{
    crate::types::lemma_field_masks(ins);
}

/// BR moves the PC to PC + offset exactly when the NZP mask and COND share
/// a bit, and changes nothing else.
pub proof fn lemma_branch_condition(ins: u16, mem: Seq<u16>, regs: Seq<u16>)
    requires
        regs.len() == REG_COUNT,
        opcode_field(ins) == 0,
    ensures
        registers_after(ins, mem, regs) == (if dr_field(ins) & regs[cond_slot()] != 0 {
            regs.update(pc_slot(), pc_relative(ins, regs))
        } else {
            regs
        }),
        memory_after(ins, mem, regs) == mem,
        !faults(ins),
        !halts(ins),
{
}

/// JSR and JSRR leave the PC they started from in R7, and set the PC
/// afterwards: to PC + offset, or to the base register as it reads once R7
/// holds the saved PC.
pub proof fn lemma_jsr_saves_pc(ins: u16, mem: Seq<u16>, regs: Seq<u16>)
    requires
        regs.len() == REG_COUNT,
        opcode_field(ins) == 4,
    ensures
        ({
            let after = registers_after(ins, mem, regs);
            let saved = regs.update(link_slot(), regs[pc_slot()]);
            &&& after[link_slot()] == regs[pc_slot()]
            &&& after == saved.update(pc_slot(), after[pc_slot()])
            &&& jsr_long_field(ins) ==> after[pc_slot()] == word_of(
                regs[pc_slot()] + field_signed(pc_offset11_field(ins) as int, 11),
            )
            &&& !jsr_long_field(ins) ==> after[pc_slot()] == saved[sr1_field(ins) as int]
        }),
        memory_after(ins, mem, regs) == mem,
{
    assert(registers_after(ins, mem, regs) =~= jsr_registers(ins, regs));
}

/// LDI reads the pointer at PC + offset and then the word it points to; STI
/// reads the pointer and then writes through it. Neither faults, and each
/// changes only its destination.
pub proof fn lemma_indirect_access(ins: u16, mem: Seq<u16>, regs: Seq<u16>)
    requires
        regs.len() == REG_COUNT,
        mem.len() == MEMORY_MAX,
        opcode_field(ins) == 10 || opcode_field(ins) == 11,
    ensures
        !faults(ins),
        !halts(ins),
        opcode_field(ins) == 10 ==> registers_after(ins, mem, regs)[dr_field(ins) as int]
            == mem[mem[pc_relative(ins, regs) as int] as int] && memory_after(ins, mem, regs)
            == mem,
        opcode_field(ins) == 11 ==> memory_after(ins, mem, regs) == mem.update(
            mem[pc_relative(ins, regs) as int] as int,
            regs[dr_field(ins) as int],
        ) && registers_after(ins, mem, regs) == regs,
{
    crate::types::lemma_field_masks(ins);
}

/// An instruction never leaves COND without a single flag when it had one:
/// only the instructions that set the condition codes write it.
pub proof fn lemma_keeps_single_flag(ins: u16, mem: Seq<u16>, regs: Seq<u16>)
    requires
        regs.len() == REG_COUNT,
        is_single_flag(regs[cond_slot()]),
    ensures
        is_single_flag(registers_after(ins, mem, regs)[cond_slot()]),
{
    crate::types::lemma_field_masks(ins);
}

/// Executing an instruction keeps the number of register slots.
pub proof fn lemma_registers_after_len(ins: u16, mem: Seq<u16>, regs: Seq<u16>)
    requires
        regs.len() == REG_COUNT,
    ensures
        registers_after(ins, mem, regs).len() == REG_COUNT,
{
}

// Word arithmetic behind the address and ALU computations.

/// A word read as signed and taken back modulo 2^16 is the word itself.
proof fn lemma_word_round_trip(x: u16)
    ensures
        word_of(word_signed(x)) == x,
{
}

/// Wrapping addition is addition modulo 2^16.
proof fn lemma_wrapping_add(a: u16, b: u16)
    ensures
        a.wrapping_add(b) == word_of(a + b),
{
}

/// Adding a sign-extended word wraps to the sum with its signed value.
proof fn lemma_add_signed(a: u16, x: u16, s: int)
    requires
        word_signed(x) == s,
    ensures
        a.wrapping_add(x) == word_of(a + s),
{
}

/// Bit facts behind BR and NOT.
proof fn lemma_branch_and_not(nzp: u16, cond: u16, x: u16)
    by (bit_vector)
    requires
        nzp < 8,
    ensures
        ((nzp & 4u16 != 0u16 && cond & 4u16 != 0u16) || (nzp & 2u16 != 0u16 && cond & 2u16
            != 0u16) || (nzp & 1u16 != 0u16 && cond & 1u16 != 0u16)) == (nzp & cond != 0u16),
        !x == 0xFFFFu16 - x,
{
}

/// The general register numbered `n`.
fn general_register(n: u16) -> (r: Registers)
    requires
        n < 8,
    ensures
        r.spec_index() == n,
{
    Registers::from_u16(n).unwrap()
}

/// The value of the general register numbered `n`.
fn general_value(registers: &RegisterFile, n: u16) -> (r: u16)
    requires
        n < 8,
    ensures
        r == registers@[n as int],
{
    registers.read(general_register(n)).unwrap_or(0)
}

/// Writes `value` into the general register numbered `dr` and sets COND from it.
fn set_result(registers: &mut RegisterFile, dr: u16, value: u16)
    requires
        dr < 8,
    ensures
        final(registers)@ == with_result(old(registers)@, dr, value),
{
    let _ = registers.write(general_register(dr), value);
    let _ = registers.update_condition_code(value);
}

/// An error result with the message `text`.
fn error_result(text: &str) -> (r: ExecutionResult)
    ensures
        r is Error,
        r->Error_0@ == text@,
{
    ExecutionResult::Error(String::from_str(text))
}

impl InstructionExecutor {
    /// Sign-extends the low `bit_count` bits of `instr` to 16 bits.
    pub fn sign_extend(instr: u16, bit_count: usize) -> (r: u16)
        requires
            1 <= bit_count <= 16,
        ensures
            instr < pow2(bit_count as nat) ==> word_signed(r) == field_signed(
                instr as int,
                bit_count as nat,
            ),
            instr < pow2((bit_count - 1) as nat) ==> r == instr,
            bit_count < 16 ==> r == (if (instr >> (bit_count - 1) as u16) & 1 == 1 {
                instr | (0xFFFFu16 << bit_count as u16)
            } else {
                instr
            }),
    {
        crate::types::sign_extend(instr, bit_count)
    }

    /// Executes one instruction word: decodes its opcode and applies that
    /// opcode's semantics to the registers and the memory.
    pub fn execute_instruction(
        instruction: u16,
        memory: &mut Memory,
        registers: &mut RegisterFile,
    ) -> (r: ExecutionResult)
        ensures
            final(registers)@ == registers_after(instruction, old(memory)@, old(registers)@),
            final(memory)@ == memory_after(instruction, old(memory)@, old(registers)@),
            r is Halt <==> halts(instruction),
            r is Error <==> faults(instruction),
            r is Error ==> r->Error_0@ == fault_message(instruction),
    {
        let opcode = extract_opcode(instruction);
        match Opcodes::from_u16(opcode) {
            Some(Opcodes::BR) => Self::execute_br(instruction, registers),
            Some(Opcodes::ADD) => Self::execute_add(instruction, registers),
            Some(Opcodes::LD) => Self::execute_ld(instruction, memory, registers),
            Some(Opcodes::ST) => Self::execute_st(instruction, memory, registers),
            Some(Opcodes::JSR) => Self::execute_jsr(instruction, registers),
            Some(Opcodes::AND) => Self::execute_and(instruction, registers),
            Some(Opcodes::LDR) => Self::execute_ldr(instruction, memory, registers),
            Some(Opcodes::STR) => Self::execute_str(instruction, memory, registers),
            Some(Opcodes::RTI) => error_result("RTI instruction not implemented"),
            Some(Opcodes::NOT) => Self::execute_not(instruction, registers),
            Some(Opcodes::LDI) => Self::execute_ldi(instruction, memory, registers),
            Some(Opcodes::STI) => Self::execute_sti(instruction, memory, registers),
            Some(Opcodes::JMP) => Self::execute_jmp(instruction, registers),
            Some(Opcodes::RES) => error_result("RES instruction is reserved"),
            Some(Opcodes::LEA) => Self::execute_lea(instruction, registers),
            Some(Opcodes::TRAP) => Self::execute_trap(instruction, memory, registers),
            None => {
                let mut text = String::from_str("Unknown opcode: ");
                append_decimal(&mut text, opcode as u64);
                ExecutionResult::Error(text)
            },
        }
    }

    /// BR: adds the sign-extended offset to the PC when the NZP mask shares
    /// a bit with COND.
    pub fn execute_br(instruction: u16, registers: &mut RegisterFile) -> (r: ExecutionResult)
        ensures
            r is Continue,
            final(registers)@ == (if branch_taken(instruction, old(registers)@) {
                old(registers)@.update(pc_slot(), pc_relative(instruction, old(registers)@))
            } else {
                old(registers)@
            }),
    {
        let pc_offset9 = extract_pc_offset9(instruction);
        let nzp = extract_dr(instruction);
        let should_branch = (nzp & 0x4 != 0 && registers.is_flag_set(Flags::NEG)) || (nzp & 0x2
            != 0 && registers.is_flag_set(Flags::ZRO)) || (nzp & 0x1 != 0
            && registers.is_flag_set(Flags::POS));
        proof {
            lemma_branch_and_not(nzp, registers.cond(), 0);
        }
        if should_branch {
            let pc = registers.get_pc();
            let offset = sign_extend_pc_offset9(pc_offset9);
            proof {
                lemma_add_signed(pc, offset, field_signed(pc_offset9 as int, 9));
            }
            let _ = registers.set_pc(pc.wrapping_add(offset));
        }
        ExecutionResult::Continue
    }

    /// ADD: DR = SR1 + (SR2 or imm5), wrapping; sets COND.
    pub fn execute_add(instruction: u16, registers: &mut RegisterFile) -> (r: ExecutionResult)
        ensures
            r is Continue,
            final(registers)@ == with_result(
                old(registers)@,
                dr_field(instruction),
                add_result(instruction, old(registers)@),
            ),
    {
        let dr = extract_dr(instruction);
        let sr1 = extract_sr1(instruction);
        let imm5_flag = extract_imm5_flag(instruction);
        let sr1_value = general_value(registers, sr1);
        let operand = if imm5_flag {
            let imm5 = extract_imm5(instruction);
            let imm5_value = sign_extend_imm5(imm5);
            proof {
                lemma_word_round_trip(imm5_value);
            }
            imm5_value
        } else {
            let sr2 = extract_sr2(instruction);
            general_value(registers, sr2)
        };
        proof {
            lemma_wrapping_add(sr1_value, operand);
        }
        let result = sr1_value.wrapping_add(operand);
        set_result(registers, dr, result);
        ExecutionResult::Continue
    }

    /// LD: DR = memory[PC + offset9]; sets COND.
    pub fn execute_ld(instruction: u16, memory: &Memory, registers: &mut RegisterFile) -> (r:
        ExecutionResult)
        ensures
            r is Continue,
            final(registers)@ == with_result(
                old(registers)@,
                dr_field(instruction),
                memory@[pc_relative(instruction, old(registers)@) as int],
            ),
    {
        let dr = extract_dr(instruction);
        let pc_offset9 = extract_pc_offset9(instruction);
        let pc = registers.get_pc();
        let offset = sign_extend_pc_offset9(pc_offset9);
        proof {
            lemma_add_signed(pc, offset, field_signed(pc_offset9 as int, 9));
        }
        let address = pc.wrapping_add(offset);
        match memory.read(address) {
            Some(value) => {
                set_result(registers, dr, value);
                ExecutionResult::Continue
            },
            None => error_result("Memory read out of bounds"),
        }
    }

    /// ST: memory[PC + offset9] = SR.
    pub fn execute_st(instruction: u16, memory: &mut Memory, registers: &mut RegisterFile) -> (r:
        ExecutionResult)
        ensures
            r is Continue,
            final(registers)@ == old(registers)@,
            final(memory)@ == old(memory)@.update(
                pc_relative(instruction, old(registers)@) as int,
                old(registers)@[dr_field(instruction) as int],
            ),
    {
        let sr = extract_dr(instruction);
        let pc_offset9 = extract_pc_offset9(instruction);
        let pc = registers.get_pc();
        let offset = sign_extend_pc_offset9(pc_offset9);
        proof {
            lemma_add_signed(pc, offset, field_signed(pc_offset9 as int, 9));
        }
        let address = pc.wrapping_add(offset);
        let value = general_value(registers, sr);
        match memory.write(address, value) {
            Ok(_) => ExecutionResult::Continue,
            Err(_) => error_result("Memory write out of bounds"),
        }
    }

    /// JSR/JSRR: saves the PC in R7, then jumps PC-relative (bit 11 set) or
    /// to the base register.
    pub fn execute_jsr(instruction: u16, registers: &mut RegisterFile) -> (r: ExecutionResult)
        ensures
            r is Continue,
            final(registers)@ == jsr_registers(instruction, old(registers)@),
    {
        let pc = registers.get_pc();
        let _ = registers.write(Registers::R7, pc);
        proof {
            crate::types::lemma_field_masks(instruction);
        }
        if (instruction & 0x800) != 0 {
            let pc_offset11 = extract_pc_offset11(instruction);
            let offset = sign_extend_pc_offset11(pc_offset11);
            proof {
                lemma_add_signed(pc, offset, field_signed(pc_offset11 as int, 11));
            }
            let _ = registers.set_pc(pc.wrapping_add(offset));
        } else {
            let base_reg = extract_sr1(instruction);
            let base_value = general_value(registers, base_reg);
            let _ = registers.set_pc(base_value);
        }
        ExecutionResult::Continue
    }

    /// AND: DR = SR1 & (SR2 or imm5); sets COND.
    pub fn execute_and(instruction: u16, registers: &mut RegisterFile) -> (r: ExecutionResult)
        ensures
            r is Continue,
            final(registers)@ == with_result(
                old(registers)@,
                dr_field(instruction),
                and_result(instruction, old(registers)@),
            ),
    {
        let dr = extract_dr(instruction);
        let sr1 = extract_sr1(instruction);
        let imm5_flag = extract_imm5_flag(instruction);
        let sr1_value = general_value(registers, sr1);
        let operand = if imm5_flag {
            let imm5 = extract_imm5(instruction);
            let imm5_value = sign_extend_imm5(imm5);
            proof {
                lemma_word_round_trip(imm5_value);
            }
            imm5_value
        } else {
            let sr2 = extract_sr2(instruction);
            general_value(registers, sr2)
        };
        let result = sr1_value & operand;
        set_result(registers, dr, result);
        ExecutionResult::Continue
    }

    /// LDR: DR = memory[base + offset6]; sets COND.
    pub fn execute_ldr(instruction: u16, memory: &Memory, registers: &mut RegisterFile) -> (r:
        ExecutionResult)
        ensures
            r is Continue,
            final(registers)@ == with_result(
                old(registers)@,
                dr_field(instruction),
                memory@[base_relative(instruction, old(registers)@) as int],
            ),
    {
        let dr = extract_dr(instruction);
        let base_reg = extract_sr1(instruction);
        let offset6 = extract_offset6(instruction);
        let base_value = general_value(registers, base_reg);
        let offset = sign_extend_offset6(offset6);
        proof {
            lemma_add_signed(base_value, offset, field_signed(offset6 as int, 6));
        }
        let address = base_value.wrapping_add(offset);
        match memory.read(address) {
            Some(value) => {
                set_result(registers, dr, value);
                ExecutionResult::Continue
            },
            None => error_result("Memory read out of bounds"),
        }
    }

    /// STR: memory[base + offset6] = SR.
    pub fn execute_str(instruction: u16, memory: &mut Memory, registers: &mut RegisterFile) -> (r:
        ExecutionResult)
        ensures
            r is Continue,
            final(registers)@ == old(registers)@,
            final(memory)@ == old(memory)@.update(
                base_relative(instruction, old(registers)@) as int,
                old(registers)@[dr_field(instruction) as int],
            ),
    {
        let sr = extract_dr(instruction);
        let base_reg = extract_sr1(instruction);
        let offset6 = extract_offset6(instruction);
        let base_value = general_value(registers, base_reg);
        let offset = sign_extend_offset6(offset6);
        proof {
            lemma_add_signed(base_value, offset, field_signed(offset6 as int, 6));
        }
        let address = base_value.wrapping_add(offset);
        let value = general_value(registers, sr);
        match memory.write(address, value) {
            Ok(_) => ExecutionResult::Continue,
            Err(_) => error_result("Memory write out of bounds"),
        }
    }

    /// NOT: DR = bitwise complement of SR; sets COND.
    pub fn execute_not(instruction: u16, registers: &mut RegisterFile) -> (r: ExecutionResult)
        ensures
            r is Continue,
            final(registers)@ == with_result(
                old(registers)@,
                dr_field(instruction),
                not_result(instruction, old(registers)@),
            ),
    {
        let dr = extract_dr(instruction);
        let sr = extract_sr1(instruction);
        let sr_value = general_value(registers, sr);
        proof {
            lemma_branch_and_not(0, 0, sr_value);
        }
        let result = !sr_value;
        set_result(registers, dr, result);
        ExecutionResult::Continue
    }

    /// LDI: DR = memory[memory[PC + offset9]]; sets COND. Two reads: the
    /// pointer, then the data.
    pub fn execute_ldi(instruction: u16, memory: &Memory, registers: &mut RegisterFile) -> (r:
        ExecutionResult)
        ensures
            r is Continue,
            final(registers)@ == with_result(
                old(registers)@,
                dr_field(instruction),
                memory@[memory@[pc_relative(instruction, old(registers)@) as int] as int],
            ),
    {
        let dr = extract_dr(instruction);
        let pc_offset9 = extract_pc_offset9(instruction);
        let pc = registers.get_pc();
        let offset = sign_extend_pc_offset9(pc_offset9);
        proof {
            lemma_add_signed(pc, offset, field_signed(pc_offset9 as int, 9));
        }
        let indirect_address = pc.wrapping_add(offset);
        match memory.read(indirect_address) {
            Some(direct_address) => match memory.read(direct_address) {
                Some(value) => {
                    set_result(registers, dr, value);
                    ExecutionResult::Continue
                },
                None => error_result("Indirect memory read out of bounds"),
            },
            None => error_result("Memory read out of bounds"),
        }
    }

    /// STI: memory[memory[PC + offset9]] = SR. Two accesses: reading the
    /// pointer, then writing the data.
    pub fn execute_sti(instruction: u16, memory: &mut Memory, registers: &mut RegisterFile) -> (r:
        ExecutionResult)
        ensures
            r is Continue,
            final(registers)@ == old(registers)@,
            final(memory)@ == old(memory)@.update(
                old(memory)@[pc_relative(instruction, old(registers)@) as int] as int,
                old(registers)@[dr_field(instruction) as int],
            ),
    {
        let sr = extract_dr(instruction);
        let pc_offset9 = extract_pc_offset9(instruction);
        let pc = registers.get_pc();
        let offset = sign_extend_pc_offset9(pc_offset9);
        proof {
            lemma_add_signed(pc, offset, field_signed(pc_offset9 as int, 9));
        }
        let indirect_address = pc.wrapping_add(offset);
        let value = general_value(registers, sr);
        match memory.read(indirect_address) {
            Some(direct_address) => match memory.write(direct_address, value) {
                Ok(_) => ExecutionResult::Continue,
                Err(_) => error_result("Indirect memory write out of bounds"),
            },
            None => error_result("Memory read out of bounds"),
        }
    }

    /// JMP: PC = base register.
    pub fn execute_jmp(instruction: u16, registers: &mut RegisterFile) -> (r: ExecutionResult)
        ensures
            r is Continue,
            final(registers)@ == old(registers)@.update(
                pc_slot(),
                old(registers)@[sr1_field(instruction) as int],
            ),
    {
        let base_reg = extract_sr1(instruction);
        let base_value = general_value(registers, base_reg);
        let _ = registers.set_pc(base_value);
        ExecutionResult::Continue
    }

    /// LEA: DR = PC + offset9, with no memory access; sets COND.
    pub fn execute_lea(instruction: u16, registers: &mut RegisterFile) -> (r: ExecutionResult)
        ensures
            r is Continue,
            final(registers)@ == with_result(
                old(registers)@,
                dr_field(instruction),
                pc_relative(instruction, old(registers)@),
            ),
    {
        let dr = extract_dr(instruction);
        let pc_offset9 = extract_pc_offset9(instruction);
        let pc = registers.get_pc();
        let offset = sign_extend_pc_offset9(pc_offset9);
        proof {
            lemma_add_signed(pc, offset, field_signed(pc_offset9 as int, 9));
        }
        let address = pc.wrapping_add(offset);
        set_result(registers, dr, address);
        ExecutionResult::Continue
    }

    /// TRAP: HALT stops the machine; the console routines have no console
    /// attached and do nothing; any other vector is a fault.
    pub fn execute_trap(instruction: u16, memory: &mut Memory, registers: &mut RegisterFile) -> (r:
        ExecutionResult)
        ensures
            final(registers)@ == old(registers)@,
            final(memory)@ == old(memory)@,
            r is Halt <==> trap_vector_field(instruction) == 0x25,
            r is Error <==> unknown_trap(instruction),
            r is Error ==> r->Error_0@ == "Unknown trap vector: 0x"@ + hex_text(
                trap_vector_field(instruction) as nat,
                2,
            ),
    {
        let trap_vector = extract_trap_vector(instruction);
        match TrapVectors::from_u16(trap_vector) {
            Some(TrapVectors::HALT) => ExecutionResult::Halt,
            Some(_) => ExecutionResult::Continue,
            None => {
                let mut text = String::from_str("Unknown trap vector: 0x");
                append_hex(&mut text, trap_vector as u64, 2);
                ExecutionResult::Error(text)
            },
        }
    }
}

} // verus!
