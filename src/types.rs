use vstd::prelude::*;

verus! {

use vstd::arithmetic::power2::{lemma2_to64, lemma_pow2_strictly_increases, pow2};
use vstd::bits::lemma_u32_shl_is_mul;
use vstd::string::StringExecFns;
use crate::text::{append_decimal, append_hex, decimal_text, hex_text};

/// Number of addressable words of memory.
pub const MEMORY_MAX: usize = 65536;

/// Number of register slots: R0-R7, PC, COND and one spare slot.
pub const REG_COUNT: usize = 11;

/// Conventional load address of user programs.
pub const PC_START: u16 = 0x3000;

// Registers.

/// A register of the machine: eight general registers, the program counter,
/// the condition codes, and a spare slot that ends the register file.
#[derive(Debug, Clone, Copy, PartialEq, Eq, Structural)]
pub enum Registers {
    R0,
    R1,
    R2,
    R3,
    R4,
    R5,
    R6,
    R7,
    PC,
    COND,
    COUNT,
}

impl Registers {
    /// Slot of the register in the register file.
    pub open spec fn spec_index(self) -> nat {
        match self {
            Registers::R0 => 0,
            Registers::R1 => 1,
            Registers::R2 => 2,
            Registers::R3 => 3,
            Registers::R4 => 4,
            Registers::R5 => 5,
            Registers::R6 => 6,
            Registers::R7 => 7,
            Registers::PC => 8,
            Registers::COND => 9,
            Registers::COUNT => 10,
        }
    }

    /// Slot of the register in the register file.
    pub fn index(self) -> (r: usize)
        ensures
            r == self.spec_index(),
            r < REG_COUNT,
    {
        match self {
            Registers::R0 => 0,
            Registers::R1 => 1,
            Registers::R2 => 2,
            Registers::R3 => 3,
            Registers::R4 => 4,
            Registers::R5 => 5,
            Registers::R6 => 6,
            Registers::R7 => 7,
            Registers::PC => 8,
            Registers::COND => 9,
            Registers::COUNT => 10,
        }
    }

    /// Number of register slots.
    pub fn count() -> (r: usize)
        ensures
            r == REG_COUNT,
    {
        REG_COUNT
    }

    /// The register with number `value` (R0..R7 are 0..7, PC is 8, COND is 9);
    /// `None` for any other number.
    pub fn from_u16(value: u16) -> (r: Option<Registers>)
        ensures
            r is Some <==> value < 10,
            r is Some ==> r->0.spec_index() == value,
    {
        match value {
            0 => Some(Registers::R0),
            1 => Some(Registers::R1),
            2 => Some(Registers::R2),
            3 => Some(Registers::R3),
            4 => Some(Registers::R4),
            5 => Some(Registers::R5),
            6 => Some(Registers::R6),
            7 => Some(Registers::R7),
            8 => Some(Registers::PC),
            9 => Some(Registers::COND),
            _ => None,
        }
    }
}

// Condition flags.

/// A condition flag; COND holds exactly one of them once set by a result.
#[derive(Debug, Clone, Copy, PartialEq, Eq, Structural)]
pub enum Flags {
    /// The last result was positive.
    POS,
    /// The last result was zero.
    ZRO,
    /// The last result was negative.
    NEG,
}

impl Flags {
    /// The bit of the flag in COND.
    pub open spec fn spec_to_u16(self) -> u16 {
        match self {
            Flags::POS => 1,
            Flags::ZRO => 2,
            Flags::NEG => 4,
        }
    }

    /// The bit of the flag in COND.
    #[verifier::when_used_as_spec(spec_to_u16)]
    pub fn to_u16(self) -> (r: u16)
        ensures
            r == self.spec_to_u16(),
    {
        match self {
            Flags::POS => 1,
            Flags::ZRO => 2,
            Flags::NEG => 4,
        }
    }

    /// Whether this flag's bit is set in `condition_code`.
    pub fn is_set_in(&self, condition_code: u16) -> (r: bool)
        ensures
            r == (condition_code & self.spec_to_u16() != 0),
    {
        (condition_code & self.to_u16()) != 0
    }
}

/// The flag that describes `value` read as a signed word.
pub open spec fn flag_of(value: u16) -> Flags {
    if value == 0 {
        Flags::ZRO
    } else if word_signed(value) < 0 {
        Flags::NEG
    } else {
        Flags::POS
    }
}

// Opcodes.

/// The sixteen instruction kinds, numbered by their opcode field.
#[derive(Debug, Clone, Copy, PartialEq, Eq, Structural)]
pub enum Opcodes {
    /// Branch - Conditional jump based on condition codes.
    BR,
    /// Add - Add two values and store result.
    ADD,
    /// Load - Load value from memory into register.
    LD,
    /// Store - Store register value to memory.
    ST,
    /// Jump to Subroutine - Call a subroutine.
    JSR,
    /// Bitwise AND - Perform bitwise AND operation.
    AND,
    /// Load Register - Load from memory using base+offset.
    LDR,
    /// Store Register - Store to memory using base+offset.
    STR,
    /// Return from Interrupt - Return from interrupt handler.
    RTI,
    /// Bitwise NOT - Perform bitwise NOT operation.
    NOT,
    /// Load Indirect - Load from memory address stored in memory.
    LDI,
    /// Store Indirect - Store to memory address stored in memory.
    STI,
    /// Jump - Unconditional jump to register address.
    JMP,
    /// Reserved - Unused opcode.
    RES,
    /// Load Effective Address - Load address into register.
    LEA,
    /// Trap - Execute system call or interrupt.
    TRAP,
}

impl Opcodes {
    /// The opcode number.
    pub open spec fn spec_to_u16(self) -> u16 {
        match self {
            Opcodes::BR => 0,
            Opcodes::ADD => 1,
            Opcodes::LD => 2,
            Opcodes::ST => 3,
            Opcodes::JSR => 4,
            Opcodes::AND => 5,
            Opcodes::LDR => 6,
            Opcodes::STR => 7,
            Opcodes::RTI => 8,
            Opcodes::NOT => 9,
            Opcodes::LDI => 10,
            Opcodes::STI => 11,
            Opcodes::JMP => 12,
            Opcodes::RES => 13,
            Opcodes::LEA => 14,
            Opcodes::TRAP => 15,
        }
    }

    /// The mnemonic.
    pub open spec fn spec_name(self) -> Seq<char> {
        match self {
            Opcodes::BR => "BR"@,
            Opcodes::ADD => "ADD"@,
            Opcodes::LD => "LD"@,
            Opcodes::ST => "ST"@,
            Opcodes::JSR => "JSR"@,
            Opcodes::AND => "AND"@,
            Opcodes::LDR => "LDR"@,
            Opcodes::STR => "STR"@,
            Opcodes::RTI => "RTI"@,
            Opcodes::NOT => "NOT"@,
            Opcodes::LDI => "LDI"@,
            Opcodes::STI => "STI"@,
            Opcodes::JMP => "JMP"@,
            Opcodes::RES => "RES"@,
            Opcodes::LEA => "LEA"@,
            Opcodes::TRAP => "TRAP"@,
        }
    }

    /// The one-line description.
    pub open spec fn spec_description(self) -> Seq<char> {
        match self {
            Opcodes::BR => "Branch - Conditional jump based on condition codes"@,
            Opcodes::ADD => "Add - Add two values and store result"@,
            Opcodes::LD => "Load - Load value from memory into register"@,
            Opcodes::ST => "Store - Store register value to memory"@,
            Opcodes::JSR => "Jump to Subroutine - Call a subroutine"@,
            Opcodes::AND => "Bitwise AND - Perform bitwise AND operation"@,
            Opcodes::LDR => "Load Register - Load from memory using base+offset"@,
            Opcodes::STR => "Store Register - Store to memory using base+offset"@,
            Opcodes::RTI => "Return from Interrupt - Return from interrupt handler"@,
            Opcodes::NOT => "Bitwise NOT - Perform bitwise NOT operation"@,
            Opcodes::LDI => "Load Indirect - Load from memory address stored in memory"@,
            Opcodes::STI => "Store Indirect - Store to memory address stored in memory"@,
            Opcodes::JMP => "Jump - Unconditional jump to register address"@,
            Opcodes::RES => "Reserved - Unused opcode"@,
            Opcodes::LEA => "Load Effective Address - Load address into register"@,
            Opcodes::TRAP => "Trap - Execute system call or interrupt"@,
        }
    }

    /// The instruction kind with opcode number `opcode`, if it is below 16.
    pub fn from_u16(opcode: u16) -> (r: Option<Opcodes>)
        ensures
            r is Some <==> opcode < 16,
            r is Some ==> r->0.spec_to_u16() == opcode,
    {
        match opcode {
            0 => Some(Opcodes::BR),
            1 => Some(Opcodes::ADD),
            2 => Some(Opcodes::LD),
            3 => Some(Opcodes::ST),
            4 => Some(Opcodes::JSR),
            5 => Some(Opcodes::AND),
            6 => Some(Opcodes::LDR),
            7 => Some(Opcodes::STR),
            8 => Some(Opcodes::RTI),
            9 => Some(Opcodes::NOT),
            10 => Some(Opcodes::LDI),
            11 => Some(Opcodes::STI),
            12 => Some(Opcodes::JMP),
            13 => Some(Opcodes::RES),
            14 => Some(Opcodes::LEA),
            15 => Some(Opcodes::TRAP),
            _ => None,
        }
    }

    /// The opcode number.
    #[verifier::when_used_as_spec(spec_to_u16)]
    pub fn to_u16(self) -> (r: u16)
        ensures
            r == self.spec_to_u16(),
    {
        match self {
            Opcodes::BR => 0,
            Opcodes::ADD => 1,
            Opcodes::LD => 2,
            Opcodes::ST => 3,
            Opcodes::JSR => 4,
            Opcodes::AND => 5,
            Opcodes::LDR => 6,
            Opcodes::STR => 7,
            Opcodes::RTI => 8,
            Opcodes::NOT => 9,
            Opcodes::LDI => 10,
            Opcodes::STI => 11,
            Opcodes::JMP => 12,
            Opcodes::RES => 13,
            Opcodes::LEA => 14,
            Opcodes::TRAP => 15,
        }
    }

    /// The mnemonic.
    pub fn to_string(self) -> (r: &'static str)
        ensures
            r@ == self.spec_name(),
    {
        match self {
            Opcodes::BR => "BR",
            Opcodes::ADD => "ADD",
            Opcodes::LD => "LD",
            Opcodes::ST => "ST",
            Opcodes::JSR => "JSR",
            Opcodes::AND => "AND",
            Opcodes::LDR => "LDR",
            Opcodes::STR => "STR",
            Opcodes::RTI => "RTI",
            Opcodes::NOT => "NOT",
            Opcodes::LDI => "LDI",
            Opcodes::STI => "STI",
            Opcodes::JMP => "JMP",
            Opcodes::RES => "RES",
            Opcodes::LEA => "LEA",
            Opcodes::TRAP => "TRAP",
        }
    }

    /// The one-line description.
    pub fn description(self) -> (r: &'static str)
        ensures
            r@ == self.spec_description(),
    {
        match self {
            Opcodes::BR => "Branch - Conditional jump based on condition codes",
            Opcodes::ADD => "Add - Add two values and store result",
            Opcodes::LD => "Load - Load value from memory into register",
            Opcodes::ST => "Store - Store register value to memory",
            Opcodes::JSR => "Jump to Subroutine - Call a subroutine",
            Opcodes::AND => "Bitwise AND - Perform bitwise AND operation",
            Opcodes::LDR => "Load Register - Load from memory using base+offset",
            Opcodes::STR => "Store Register - Store to memory using base+offset",
            Opcodes::RTI => "Return from Interrupt - Return from interrupt handler",
            Opcodes::NOT => "Bitwise NOT - Perform bitwise NOT operation",
            Opcodes::LDI => "Load Indirect - Load from memory address stored in memory",
            Opcodes::STI => "Store Indirect - Store to memory address stored in memory",
            Opcodes::JMP => "Jump - Unconditional jump to register address",
            Opcodes::RES => "Reserved - Unused opcode",
            Opcodes::LEA => "Load Effective Address - Load address into register",
            Opcodes::TRAP => "Trap - Execute system call or interrupt",
        }
    }
}

// Trap vectors.

/// The service routines that TRAP can select.
#[derive(Debug, Clone, Copy, PartialEq, Eq, Structural)]
pub enum TrapVectors {
    /// Get character from keyboard (no echo).
    GETC,
    /// Output character to console.
    OUT,
    /// Output null-terminated string to console.
    PUTS,
    /// Get character from keyboard with echo.
    IN,
    /// Output string with packed characters.
    PUTSP,
    /// Halt the program execution.
    HALT,
}

impl TrapVectors {
    /// The vector number.
    pub open spec fn spec_to_u16(self) -> u16 {
        match self {
            TrapVectors::GETC => 0x20,
            TrapVectors::OUT => 0x21,
            TrapVectors::PUTS => 0x22,
            TrapVectors::IN => 0x23,
            TrapVectors::PUTSP => 0x24,
            TrapVectors::HALT => 0x25,
        }
    }

    /// The routine's name.
    pub open spec fn spec_name(self) -> Seq<char> {
        match self {
            TrapVectors::GETC => "GETC"@,
            TrapVectors::OUT => "OUT"@,
            TrapVectors::PUTS => "PUTS"@,
            TrapVectors::IN => "IN"@,
            TrapVectors::PUTSP => "PUTSP"@,
            TrapVectors::HALT => "HALT"@,
        }
    }

    /// The one-line description.
    pub open spec fn spec_description(self) -> Seq<char> {
        match self {
            TrapVectors::GETC => "Get character from keyboard (no echo)"@,
            TrapVectors::OUT => "Output character to console"@,
            TrapVectors::PUTS => "Output null-terminated string to console"@,
            TrapVectors::IN => "Get character from keyboard with echo"@,
            TrapVectors::PUTSP => "Output string with packed characters"@,
            TrapVectors::HALT => "Halt the program execution"@,
        }
    }

    /// The routine with vector number `vector`, if there is one.
    pub fn from_u16(vector: u16) -> (r: Option<TrapVectors>)
        ensures
            r is Some <==> 0x20 <= vector <= 0x25,
            r is Some ==> r->0.spec_to_u16() == vector,
    {
        match vector {
            0x20 => Some(TrapVectors::GETC),
            0x21 => Some(TrapVectors::OUT),
            0x22 => Some(TrapVectors::PUTS),
            0x23 => Some(TrapVectors::IN),
            0x24 => Some(TrapVectors::PUTSP),
            0x25 => Some(TrapVectors::HALT),
            _ => None,
        }
    }

    /// The vector number.
    #[verifier::when_used_as_spec(spec_to_u16)]
    pub fn to_u16(self) -> (r: u16)
        ensures
            r == self.spec_to_u16(),
    {
        match self {
            TrapVectors::GETC => 0x20,
            TrapVectors::OUT => 0x21,
            TrapVectors::PUTS => 0x22,
            TrapVectors::IN => 0x23,
            TrapVectors::PUTSP => 0x24,
            TrapVectors::HALT => 0x25,
        }
    }

    /// The routine's name.
    pub fn to_string(self) -> (r: &'static str)
        ensures
            r@ == self.spec_name(),
    {
        match self {
            TrapVectors::GETC => "GETC",
            TrapVectors::OUT => "OUT",
            TrapVectors::PUTS => "PUTS",
            TrapVectors::IN => "IN",
            TrapVectors::PUTSP => "PUTSP",
            TrapVectors::HALT => "HALT",
        }
    }

    /// The one-line description.
    pub fn description(self) -> (r: &'static str)
        ensures
            r@ == self.spec_description(),
    {
        match self {
            TrapVectors::GETC => "Get character from keyboard (no echo)",
            TrapVectors::OUT => "Output character to console",
            TrapVectors::PUTS => "Output null-terminated string to console",
            TrapVectors::IN => "Get character from keyboard with echo",
            TrapVectors::PUTSP => "Output string with packed characters",
            TrapVectors::HALT => "Halt the program execution",
        }
    }
}

impl From<Registers> for u16 {
    /// The register's number: its slot in the register file.
    fn from(reg: Registers) -> (r: u16) {
        reg.index() as u16
    }
}

impl vstd::std_specs::convert::FromSpecImpl<Registers> for u16 {
    open spec fn obeys_from_spec() -> bool {
        true
    }

    open spec fn from_spec(reg: Registers) -> u16 {
        reg.spec_index() as u16
    }
}

// Errors.

/// Errors of the register file and the memory.
#[derive(Debug, Clone, PartialEq, Eq)]
pub enum LC3Error {
    /// An address outside the memory.
    InvalidAddress(u16),
    /// A register number that names no register.
    InvalidRegister(u16),
    /// An opcode outside 0..15.
    InvalidOpcode(u16),
    /// A trap vector that names no service routine.
    InvalidTrapVector(u16),
    /// A memory access out of bounds.
    MemoryOutOfBounds,
    /// A register access out of bounds.
    RegisterOutOfBounds,
    /// Any other failure, described in words.
    Custom(String),
}

impl From<String> for LC3Error {
    /// A custom error with the message `msg`.
    fn from(msg: String) -> (r: LC3Error) {
        LC3Error::Custom(msg)
    }
}

impl vstd::std_specs::convert::FromSpecImpl<String> for LC3Error {
    open spec fn obeys_from_spec() -> bool {
        true
    }

    open spec fn from_spec(msg: String) -> LC3Error {
        LC3Error::Custom(msg)
    }
}

impl<'a> From<&'a str> for LC3Error {
    /// A custom error with the message `msg`.
    fn from(msg: &'a str) -> (r: LC3Error)
        ensures
            r matches LC3Error::Custom(text) && text@ == msg@,
    {
        LC3Error::Custom(String::from_str(msg))
    }
}

/// A `String` cannot be built from a `str` in specifications, so the
/// conversion is described by the `ensures` of `from` alone.
impl<'a> vstd::std_specs::convert::FromSpecImpl<&'a str> for LC3Error {
    open spec fn obeys_from_spec() -> bool {
        false
    }

    open spec fn from_spec(msg: &'a str) -> LC3Error {
        LC3Error::MemoryOutOfBounds
    }
}

impl LC3Error {
    /// The description of the error.
    pub open spec fn spec_text(&self) -> Seq<char> {
        match self {
            LC3Error::InvalidAddress(address) => "Invalid memory address: 0x"@ + hex_text(
                *address as nat,
                4,
            ),
            LC3Error::InvalidRegister(reg) => "Invalid register: "@ + decimal_text(*reg as nat),
            LC3Error::InvalidOpcode(opcode) => "Invalid opcode: 0x"@ + hex_text(
                *opcode as nat,
                2,
            ),
            LC3Error::InvalidTrapVector(vector) => "Invalid trap vector: 0x"@ + hex_text(
                *vector as nat,
                2,
            ),
            LC3Error::MemoryOutOfBounds => "Memory access out of bounds"@,
            LC3Error::RegisterOutOfBounds => "Register access out of bounds"@,
            LC3Error::Custom(text) => text@,
        }
    }

    /// The description of the error.
    pub fn to_string(&self) -> (r: String)
        ensures
            r@ == self.spec_text(),
    {
        match self {
            LC3Error::InvalidAddress(address) => {
                let mut text = String::from_str("Invalid memory address: 0x");
                append_hex(&mut text, *address as u64, 4);
                text
            },
            LC3Error::InvalidRegister(reg) => {
                let mut text = String::from_str("Invalid register: ");
                append_decimal(&mut text, *reg as u64);
                text
            },
            LC3Error::InvalidOpcode(opcode) => {
                let mut text = String::from_str("Invalid opcode: 0x");
                append_hex(&mut text, *opcode as u64, 2);
                text
            },
            LC3Error::InvalidTrapVector(vector) => {
                let mut text = String::from_str("Invalid trap vector: 0x");
                append_hex(&mut text, *vector as u64, 2);
                text
            },
            LC3Error::MemoryOutOfBounds => String::from_str("Memory access out of bounds"),
            LC3Error::RegisterOutOfBounds => String::from_str("Register access out of bounds"),
            LC3Error::Custom(text) => text.clone(),
        }
    }
}

// Bit fields of an instruction word, stated arithmetically.

/// Bits 15..12.
pub open spec fn opcode_field(i: u16) -> u16 {
    i / 4096
}

/// Bits 11..9: destination register, store source, or the NZP mask of BR.
pub open spec fn dr_field(i: u16) -> u16 {
    (i / 512) % 8
}

/// Bits 8..6: first source or base register.
pub open spec fn sr1_field(i: u16) -> u16 {
    (i / 64) % 8
}

/// Bits 2..0: second source register.
pub open spec fn sr2_field(i: u16) -> u16 {
    i % 8
}

/// Bit 5: immediate mode of ADD and AND.
pub open spec fn imm_flag_field(i: u16) -> bool {
    (i / 32) % 2 == 1
}

/// Bits 4..0.
pub open spec fn imm5_field(i: u16) -> u16 {
    i % 32
}

/// Bits 5..0.
pub open spec fn offset6_field(i: u16) -> u16 {
    i % 64
}

/// Bits 8..0.
pub open spec fn pc_offset9_field(i: u16) -> u16 {
    i % 512
}

/// Bits 10..0.
pub open spec fn pc_offset11_field(i: u16) -> u16 {
    i % 2048
}

/// Bits 7..0.
pub open spec fn trap_vector_field(i: u16) -> u16 {
    i % 256
}

/// Bit 11: selects the PC-relative form of JSR.
pub open spec fn jsr_long_field(i: u16) -> bool {
    (i / 2048) % 2 == 1
}

/// Shifts and masks on a word select the fields stated above.
pub(crate) proof fn lemma_field_masks(i: u16)
    by (bit_vector)
    ensures
        i >> 12u16 == i / 4096,
        (i >> 9u16) & 7u16 == (i / 512) % 8,
        (i >> 6u16) & 7u16 == (i / 64) % 8,
        i & 7u16 == i % 8,
        (i & 0x20u16 != 0u16) == ((i / 32) % 2 == 1),
        i & 0x1Fu16 == i % 32,
        i & 0x3Fu16 == i % 64,
        i & 0x1FFu16 == i % 512,
        i & 0x7FFu16 == i % 2048,
        i & 0xFFu16 == i % 256,
        (i & 0x800u16 != 0u16) == ((i / 2048) % 2 == 1),
{
}

/// Extracts the opcode (bits 15..12).
pub fn extract_opcode(instruction: u16) -> (r: u16)
    ensures
        r == opcode_field(instruction),
        r < 16,
{
    proof {
        lemma_field_masks(instruction);
    }
    instruction >> 12
}

/// Extracts the destination register (bits 11..9).
pub fn extract_dr(instruction: u16) -> (r: u16)
    ensures
        r == dr_field(instruction),
        r < 8,
{
    proof {
        lemma_field_masks(instruction);
    }
    (instruction >> 9) & 0x7
}

/// Extracts the first source register (bits 8..6).
pub fn extract_sr1(instruction: u16) -> (r: u16)
    ensures
        r == sr1_field(instruction),
        r < 8,
{
    proof {
        lemma_field_masks(instruction);
    }
    (instruction >> 6) & 0x7
}

/// Extracts the second source register (bits 2..0).
pub fn extract_sr2(instruction: u16) -> (r: u16)
    ensures
        r == sr2_field(instruction),
        r < 8,
{
    proof {
        lemma_field_masks(instruction);
    }
    instruction & 0x7
}

/// Extracts the immediate-mode flag (bit 5).
pub fn extract_imm5_flag(instruction: u16) -> (r: bool)
    ensures
        r == imm_flag_field(instruction),
{
    proof {
        lemma_field_masks(instruction);
    }
    (instruction & 0x20) != 0
}

/// Extracts the 5-bit immediate (bits 4..0).
pub fn extract_imm5(instruction: u16) -> (r: u16)
    ensures
        r == imm5_field(instruction),
        r < 32,
{
    proof {
        lemma_field_masks(instruction);
    }
    instruction & 0x1F
}

/// Extracts the 9-bit PC-relative offset (bits 8..0).
pub fn extract_pc_offset9(instruction: u16) -> (r: u16)
    ensures
        r == pc_offset9_field(instruction),
        r < 512,
{
    proof {
        lemma_field_masks(instruction);
    }
    instruction & 0x1FF
}

/// Extracts the 11-bit PC-relative offset (bits 10..0).
pub fn extract_pc_offset11(instruction: u16) -> (r: u16)
    ensures
        r == pc_offset11_field(instruction),
        r < 2048,
{
    proof {
        lemma_field_masks(instruction);
    }
    instruction & 0x7FF
}

/// Extracts the 6-bit base offset (bits 5..0).
pub fn extract_offset6(instruction: u16) -> (r: u16)
    ensures
        r == offset6_field(instruction),
        r < 64,
{
    proof {
        lemma_field_masks(instruction);
    }
    instruction & 0x3F
}

/// Extracts the trap vector (bits 7..0).
pub fn extract_trap_vector(instruction: u16) -> (r: u16)
    ensures
        r == trap_vector_field(instruction),
        r < 256,
{
    proof {
        lemma_field_masks(instruction);
    }
    instruction & 0xFF
}

// Sign extension.

/// The two's-complement value of a `w`-bit field holding `v`.
pub open spec fn field_signed(v: int, w: nat) -> int {
    if v < pow2((w - 1) as nat) {
        v
    } else {
        v - pow2(w)
    }
}

/// A word read as a 16-bit two's-complement number.
pub open spec fn word_signed(x: u16) -> int {
    if x < 0x8000 {
        x as int
    } else {
        x - 0x10000
    }
}

/// The word that holds `x` modulo 2^16.
pub open spec fn word_of(x: int) -> u16 {
    (x % 0x10000) as u16
}

/// Setting the bits above a field whose top bit is set is the same as
/// adding the complement of the field's range, for each fixed width.
proof fn lemma_fixed_width_masks(v: u16)
    by (bit_vector)
    ensures
        v < 32 ==> ((v & 0x10u16 != 0u16) == (v >= 16u16)),
        v < 32 && v >= 16 ==> (v | 0xFFE0u16) == v + 0xFFE0u16,
        v < 64 ==> ((v & 0x20u16 != 0u16) == (v >= 32u16)),
        v < 64 && v >= 32 ==> (v | 0xFFC0u16) == v + 0xFFC0u16,
        v < 512 ==> ((v & 0x100u16 != 0u16) == (v >= 256u16)),
        v < 512 && v >= 256 ==> (v | 0xFE00u16) == v + 0xFE00u16,
        v < 2048 ==> ((v & 0x400u16 != 0u16) == (v >= 1024u16)),
        v < 2048 && v >= 1024 ==> (v | 0xF800u16) == v + 0xF800u16,
{
}

/// Sign-extends a 5-bit immediate to 16 bits.
pub fn sign_extend_imm5(value: u16) -> (r: u16)
    ensures
        value & 0x10 == 0 ==> r == value,
        value & 0x10 != 0 ==> r == value | 0xFFE0,
        value < 32 ==> word_signed(r) == field_signed(value as int, 5),
{
    proof {
        lemma_fixed_width_masks(value);
        lemma2_to64();
    }
    if (value & 0x10) != 0 {
        value | 0xFFE0
    } else {
        value
    }
}

/// Sign-extends a 6-bit offset to 16 bits.
pub fn sign_extend_offset6(value: u16) -> (r: u16)
    ensures
        value & 0x20 == 0 ==> r == value,
        value & 0x20 != 0 ==> r == value | 0xFFC0,
        value < 64 ==> word_signed(r) == field_signed(value as int, 6),
{
    proof {
        lemma_fixed_width_masks(value);
        lemma2_to64();
    }
    if (value & 0x20) != 0 {
        value | 0xFFC0
    } else {
        value
    }
}

/// Sign-extends a 9-bit PC offset to 16 bits.
pub fn sign_extend_pc_offset9(value: u16) -> (r: u16)
    ensures
        value & 0x100 == 0 ==> r == value,
        value & 0x100 != 0 ==> r == value | 0xFE00,
        value < 512 ==> word_signed(r) == field_signed(value as int, 9),
{
    proof {
        lemma_fixed_width_masks(value);
        lemma2_to64();
    }
    if (value & 0x100) != 0 {
        value | 0xFE00
    } else {
        value
    }
}

/// Sign-extends an 11-bit PC offset to 16 bits.
pub fn sign_extend_pc_offset11(value: u16) -> (r: u16)
    ensures
        value & 0x400 == 0 ==> r == value,
        value & 0x400 != 0 ==> r == value | 0xF800,
        value < 2048 ==> word_signed(r) == field_signed(value as int, 11),
{
    proof {
        lemma_fixed_width_masks(value);
        lemma2_to64();
    }
    if (value & 0x400) != 0 {
        value | 0xF800
    } else {
        value
    }
}

/// For a field of width `w` below 16, the sign bit is set exactly when the
/// field is at least 2^(w-1), and filling the bits above the field then adds
/// 2^16 - 2^w.
proof fn lemma_variable_width_mask(v: u16, w: u16)
    by (bit_vector)
    requires
        1 <= w <= 15,
        (v as u32) < (1u32 << (w as u32)),
    ensures
        ((v >> ((w - 1u16) as u16)) & 1u16 == 1u16) == ((v as u32) >= (1u32 << ((w - 1u16) as u32))),
        ((v >> ((w - 1u16) as u16)) & 1u16 == 1u16) ==> ((v | (0xFFFFu16 << w)) as u32) == (v as u32)
            + 0x10000u32 - (1u32 << (w as u32)),
{
}

/// Sign-extends the low `bit_count` bits of `value` to 16 bits.
pub fn sign_extend(value: u16, bit_count: usize) -> (r: u16)
    requires
        1 <= bit_count <= 16,
    ensures
        value < pow2(bit_count as nat) ==> word_signed(r) == field_signed(
            value as int,
            bit_count as nat,
        ),
        value < pow2((bit_count - 1) as nat) ==> r == value,
        bit_count < 16 ==> r == (if (value >> (bit_count - 1) as u16) & 1 == 1 {
            value | (0xFFFFu16 << bit_count as u16)
        } else {
            value
        }),
{
    let w = bit_count as u16;
    if w == 16 {
        proof {
            lemma2_to64();
        }
        return value;
    }
    let negative = ((value >> (w - 1)) & 1) == 1;
    proof {
        lemma_pow2_strictly_increases((w - 1) as nat, 15);
        lemma_pow2_strictly_increases(w as nat, 16);
        lemma2_to64();
        lemma_u32_shl_is_mul(1u32, w as u32);
        lemma_u32_shl_is_mul(1u32, (w - 1) as u32);
        vstd::arithmetic::power2::lemma_pow2_unfold(w as nat);
        if value < pow2(bit_count as nat) {
            lemma_variable_width_mask(value, w);
        }
    }
    if negative {
        value | (0xFFFFu16 << w)
    } else {
        value
    }
}

} // verus!
