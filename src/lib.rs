//! An interpreter for the LC-3 instruction set: a 16-bit machine with eight
//! general registers, a program counter, a condition-code register and
//! 65536 words of memory.
//!
//! The decoder, the register file, the memory, the per-opcode semantics and
//! the controller that runs fetch/execute cycles are all verified against
//! the models stated in their contracts.

pub mod console;
pub mod instructions;
pub mod memory;
pub mod opcodes;
pub mod registers;
pub mod text;
pub mod types;
pub mod vm;

pub use types::{
    extract_dr, extract_imm5, extract_imm5_flag, extract_offset6, extract_opcode,
    extract_pc_offset11, extract_pc_offset9, extract_sr1, extract_sr2, extract_trap_vector,
    sign_extend, sign_extend_imm5, sign_extend_offset6, sign_extend_pc_offset11,
    sign_extend_pc_offset9, Flags, LC3Error, Opcodes, Registers, TrapVectors, MEMORY_MAX,
    PC_START, REG_COUNT,
};

pub use console::ConsoleRequest;
pub use instructions::{ExecutionResult, InstructionExecutor};
pub use memory::Memory;
pub use registers::RegisterFile;
pub use vm::LC3VM;
