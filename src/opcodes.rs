//! The instruction and trap-vector tables, with the decoder's field
//! extractors and sign extension, gathered for callers that decode words.

pub use crate::types::{
    extract_dr, extract_imm5, extract_imm5_flag, extract_offset6, extract_opcode,
    extract_pc_offset11, extract_pc_offset9, extract_sr1, extract_sr2, extract_trap_vector,
    sign_extend, sign_extend_imm5, sign_extend_offset6, sign_extend_pc_offset11,
    sign_extend_pc_offset9, Opcodes, TrapVectors,
};
