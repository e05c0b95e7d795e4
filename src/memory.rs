use vstd::prelude::*;

verus! {

use crate::registers::{pc_slot, RegisterFile};
use crate::types::{LC3Error, MEMORY_MAX};
use vstd::slice::slice_subrange;

/// `mem` with `words` written from address `start` on.
pub open spec fn placed(mem: Seq<u16>, start: int, words: Seq<u16>) -> Seq<u16> {
    Seq::new(
        mem.len(),
        |a: int|
            if start <= a < start + words.len() {
                words[a - start]
            } else {
                mem[a]
            },
    )
}

/// The smaller of two integers.
pub open spec fn min_int(a: int, b: int) -> int {
    if a <= b {
        a
    } else {
        b
    }
}

/// The machine's word-addressed memory of `MEMORY_MAX` words.
///
/// Its view is the sequence of all words, indexed by address.
#[derive(Debug)]
pub struct Memory {
    locations: [u16; MEMORY_MAX],
}

impl View for Memory {
    type V = Seq<u16>;

    closed spec fn view(&self) -> Seq<u16> {
        self.locations@
    }
}

/// A memory always has `MEMORY_MAX` words.
pub broadcast proof fn lemma_memory_len(memory: &Memory)
    ensures
        #[trigger] memory@.len() == MEMORY_MAX,
{
}

/// A word written to an address is what a read of that address returns
/// next.
pub proof fn lemma_write_then_read(memory: &Memory, address: u16, value: u16)
    ensures
        memory@.update(address as int, value)[address as int] == value,
{
}

impl Memory {
    /// A memory with every word zero.
    pub fn new() -> (r: Self)
        ensures
            r@ == Seq::new(MEMORY_MAX as nat, |i: int| 0u16),
    {
        let r = Memory { locations: [0u16; MEMORY_MAX] };
        assert(r@ =~= Seq::new(MEMORY_MAX as nat, |i: int| 0u16));
        r
    }

    /// Reads the word at `address`. Every 16-bit address lies inside the
    /// memory, so the read always succeeds.
    pub fn read(&self, address: u16) -> (r: Option<u16>)
        ensures
            r == Some(self@[address as int]),
    {
        if address as usize >= MEMORY_MAX {
            return None;
        }
        Some(self.locations[address as usize])
    }

    /// Writes `value` at `address`, leaving every other word as it was.
    pub fn write(&mut self, address: u16, value: u16) -> (r: Result<(), LC3Error>)
        ensures
            r is Ok,
            final(self)@ == old(self)@.update(address as int, value),
    {
        if address as usize >= MEMORY_MAX {
            return Err(LC3Error::MemoryOutOfBounds);
        }
        self.locations[address as usize] = value;
        Ok(())
    }

    /// Copies `program` into memory from `start_address` on and returns the
    /// number of words copied. Fails, writing nothing, when the program would
    /// run past the last address.
    pub fn load_program(&mut self, start_address: u16, program: &[u16]) -> (r: Result<
        usize,
        LC3Error,
    >)
        ensures
            start_address + program@.len() > MEMORY_MAX ==> r == Err::<usize, LC3Error>(
                LC3Error::MemoryOutOfBounds,
            ) && final(self)@ == old(self)@,
            start_address + program@.len() <= MEMORY_MAX ==> r == Ok::<usize, LC3Error>(
                program@.len() as usize,
            ) && final(self)@ == placed(old(self)@, start_address as int, program@),
    {
        let n = program.len();
        if n > MEMORY_MAX - start_address as usize {
            return Err(LC3Error::MemoryOutOfBounds);
        }
        let mut i: usize = 0;
        while i < n
            invariant
                n == program@.len(),
                start_address + n <= MEMORY_MAX,
                0 <= i <= n,
                self@ == placed(old(self)@, start_address as int, program@.subrange(0, i as int)),
            decreases n - i,
        {
            let address = (start_address as usize + i) as u16;
            match self.write(address, program[i]) {
                Ok(()) => {},
                Err(e) => {
                    return Err(e);
                },
            }
            i = i + 1;
            assert(self@ =~= placed(
                old(self)@,
                start_address as int,
                program@.subrange(0, i as int),
            ));
        }
        assert(program@.subrange(0, n as int) =~= program@);
        Ok(n)
    }

    /// Reads the word at the program counter and, once the read has
    /// succeeded, advances the program counter by one word (wrapping).
    pub fn fetch_instruction(&self, registers: &mut RegisterFile) -> (r: Option<u16>)
        ensures
            r == Some(self@[old(registers).pc() as int]),
            final(registers)@ == old(registers)@.update(
                pc_slot(),
                old(registers).pc().wrapping_add(1),
            ),
    {
        let pc = registers.get_pc();
        let instruction = match self.read(pc) {
            Some(w) => w,
            None => {
                return None;
            },
        };
        let _ = registers.increment_pc();
        Some(instruction)
    }

    /// The words from address `start` on, at most `len` of them, cut at the
    /// end of memory.
    pub fn get_memory_slice(&self, start: usize, len: usize) -> (r: &[u16])
        ensures
            r@ == self@.subrange(
                min_int(start as int, MEMORY_MAX as int),
                min_int(start + len, MEMORY_MAX as int),
            ),
    {
        let from = if start < MEMORY_MAX {
            start
        } else {
            MEMORY_MAX
        };
        let wanted = start.saturating_add(len);
        let end = if wanted < MEMORY_MAX {
            wanted
        } else {
            MEMORY_MAX
        };
        slice_subrange(self.locations.as_slice(), from, end)
    }
}

impl Default for Memory {
    /// A memory with every word zero.
    fn default() -> (r: Self)
        ensures
            r@ == Seq::new(MEMORY_MAX as nat, |i: int| 0u16),
    {
        Self::new()
    }
}

} // verus!
