use vstd::prelude::*;

verus! {

use crate::types::{flag_of, Flags, LC3Error, Registers, REG_COUNT};

/// Slot of the program counter.
pub open spec fn pc_slot() -> int {
    Registers::PC.spec_index() as int
}

/// Slot of the condition codes.
pub open spec fn cond_slot() -> int {
    Registers::COND.spec_index() as int
}

/// Whether a COND value holds exactly one of the three flags.
pub open spec fn is_single_flag(cond: u16) -> bool {
    cond == Flags::POS.spec_to_u16() || cond == Flags::ZRO.spec_to_u16() || cond
        == Flags::NEG.spec_to_u16()
}

/// The register slots of the machine, all 16-bit words.
///
/// Its view is the sequence of the `REG_COUNT` slots, indexed by
/// `Registers::spec_index`.
#[derive(Debug)]
pub struct RegisterFile {
    locations: [u16; REG_COUNT],
}

impl View for RegisterFile {
    type V = Seq<u16>;

    closed spec fn view(&self) -> Seq<u16> {
        self.locations@
    }
}

/// A register file always has `REG_COUNT` slots.
pub broadcast proof fn lemma_register_file_len(registers: &RegisterFile)
    ensures
        #[trigger] registers@.len() == REG_COUNT,
{
}

impl RegisterFile {
    /// The value of register `reg`.
    pub open spec fn reg(&self, reg: Registers) -> u16 {
        self@[reg.spec_index() as int]
    }

    /// The value of the program counter.
    pub open spec fn pc(&self) -> u16 {
        self@[pc_slot()]
    }

    /// The value of the condition-code register.
    pub open spec fn cond(&self) -> u16 {
        self@[cond_slot()]
    }

    /// A register file with every slot zero.
    pub fn new() -> (r: Self)
        ensures
            r@ == Seq::new(REG_COUNT as nat, |i: int| 0u16),
    {
        let r = RegisterFile { locations: [0u16; REG_COUNT] };
        assert(r@ =~= Seq::new(REG_COUNT as nat, |i: int| 0u16));
        r
    }

    /// Reads register `reg`. Every register of `Registers` has a slot, so the
    /// read always succeeds.
    pub fn read(&self, reg: Registers) -> (r: Option<u16>)
        ensures
            r == Some(self.reg(reg)),
    {
        let i = reg.index();
        if i >= REG_COUNT {
            return None;
        }
        Some(self.locations[i])
    }

    /// Writes `value` into register `reg`, leaving every other slot as it was.
    pub fn write(&mut self, reg: Registers, value: u16) -> (r: Result<(), LC3Error>)
        ensures
            r is Ok,
            final(self)@ == old(self)@.update(reg.spec_index() as int, value),
    {
        let i = reg.index();
        if i >= REG_COUNT {
            return Err(LC3Error::RegisterOutOfBounds);
        }
        self.locations[i] = value;
        Ok(())
    }

    /// Sets COND to the one flag that describes `value` read as a signed
    /// word: ZRO for zero, NEG for negative, POS otherwise.
    pub fn update_condition_code(&mut self, value: u16) -> (r: Result<(), LC3Error>)
        ensures
            r is Ok,
            final(self)@ == old(self)@.update(cond_slot(), flag_of(value).spec_to_u16()),
            is_single_flag(final(self).cond()),
    {
        let flag = if value == 0 {
            Flags::ZRO
        } else if value >= 0x8000 {
            Flags::NEG
        } else {
            Flags::POS
        };
        self.write(Registers::COND, flag.to_u16())
    }

    /// The program counter.
    pub fn get_pc(&self) -> (r: u16)
        ensures
            r == self.pc(),
    {
        self.read(Registers::PC).unwrap_or(0)
    }

    /// Sets the program counter.
    pub fn set_pc(&mut self, value: u16) -> (r: Result<(), LC3Error>)
        ensures
            r is Ok,
            final(self)@ == old(self)@.update(pc_slot(), value),
    {
        self.write(Registers::PC, value)
    }

    /// Advances the program counter by one word, wrapping from 0xFFFF to 0.
    pub fn increment_pc(&mut self) -> (r: Result<(), LC3Error>)
        ensures
            r is Ok,
            final(self)@ == old(self)@.update(pc_slot(), old(self).pc().wrapping_add(1)),
    {
        let current_pc = self.get_pc();
        self.set_pc(current_pc.wrapping_add(1))
    }

    /// The condition-code register.
    pub fn get_condition_code(&self) -> (r: u16)
        ensures
            r == self.cond(),
    {
        self.read(Registers::COND).unwrap_or(0)
    }

    /// Whether `flag` is set in COND.
    pub fn is_flag_set(&self, flag: Flags) -> (r: bool)
        ensures
            r == (self.cond() & flag.spec_to_u16() != 0),
    {
        (self.get_condition_code() & flag.to_u16()) != 0
    }
}

impl Default for RegisterFile {
    /// A register file with every slot zero.
    fn default() -> (r: Self)
        ensures
            r@ == Seq::new(REG_COUNT as nat, |i: int| 0u16),
    {
        Self::new()
    }
}

} // verus!
