use vstd::prelude::*;

verus! {

use crate::memory::lemma_memory_len;
use crate::registers::lemma_register_file_len;
use crate::types::{opcode_field, trap_vector_field, Registers, MEMORY_MAX};
use crate::vm::{next_instruction, LC3VM};

broadcast use {lemma_memory_len, lemma_register_file_len};

/// A console operation asked for by a trap routine. The machine has no
/// console of its own: whoever drives it performs the request around the
/// step that executes the trap, and for a read puts the character in R0.
#[derive(Debug, Clone, PartialEq, Eq)]
pub enum ConsoleRequest {
    /// GETC: read one character into R0.
    Read,
    /// IN: read one character into R0 and echo it.
    ReadWithEcho,
    /// OUT, PUTS, PUTSP: write these characters.
    Write(Vec<u8>),
}

/// The low byte of a word.
pub open spec fn low_byte(w: u16) -> u8 {
    (w % 256) as u8
}

/// The high byte of a word.
pub open spec fn high_byte(w: u16) -> u8 {
    (w / 256) as u8
}

/// The characters PUTS writes from address `a` on: the low byte of each
/// word up to the first zero word or the end of memory.
pub open spec fn puts_chars(mem: Seq<u16>, a: int) -> Seq<u8>
    decreases MEMORY_MAX - a,
{
    if a < 0 || a >= MEMORY_MAX || mem[a] == 0 {
        Seq::empty()
    } else {
        seq![low_byte(mem[a])] + puts_chars(mem, a + 1)
    }
}

/// The characters of one packed PUTSP word: the low byte, then the high
/// byte unless it is zero.
pub open spec fn packed_chars(w: u16) -> Seq<u8> {
    if high_byte(w) == 0 {
        seq![low_byte(w)]
    } else {
        seq![low_byte(w), high_byte(w)]
    }
}

/// The characters PUTSP writes from address `a` on, up to the first zero
/// word or the end of memory.
pub open spec fn putsp_chars(mem: Seq<u16>, a: int) -> Seq<u8>
    decreases MEMORY_MAX - a,
{
    if a < 0 || a >= MEMORY_MAX || mem[a] == 0 {
        Seq::empty()
    } else {
        packed_chars(mem[a]) + putsp_chars(mem, a + 1)
    }
}

/// Bytes of a word by shift and mask.
proof fn lemma_bytes(w: u16)
    by (bit_vector)
    ensures
        w & 0xFFu16 == w % 256,
        w >> 8u16 == w / 256,
{
}

/// The low byte of `w`.
fn low_byte_of(w: u16) -> (r: u8)
    ensures
        r == low_byte(w),
{
    proof {
        lemma_bytes(w);
    }
    (w & 0xFF) as u8
}

/// The high byte of `w`.
fn high_byte_of(w: u16) -> (r: u8)
    ensures
        r == high_byte(w),
{
    proof {
        lemma_bytes(w);
    }
    (w >> 8) as u8
}

impl LC3VM {
    /// The word at `address`, which lies inside the memory.
    fn word_at(&self, address: usize) -> (r: u16)
        requires
            address < MEMORY_MAX,
        ensures
            r == self.memory@[address as int],
    {
        self.read_memory(address as u16).unwrap_or(0)
    }

    /// The characters PUTS writes for a string that starts at `start`.
    fn puts_text(&self, start: u16) -> (r: Vec<u8>)
        ensures
            r@ == puts_chars(self.memory@, start as int),
    {
        let mut out: Vec<u8> = Vec::new();
        let mut address: usize = start as usize;
        while address < MEMORY_MAX && self.word_at(address) != 0
            invariant
                start <= address <= MEMORY_MAX,
                out@ + puts_chars(self.memory@, address as int) == puts_chars(
                    self.memory@,
                    start as int,
                ),
            decreases MEMORY_MAX - address,
        {
            let w = self.word_at(address);
            let ghost before = out@;
            out.push(low_byte_of(w));
            assert(before + puts_chars(self.memory@, address as int) =~= out@ + puts_chars(
                self.memory@,
                address + 1,
            ));
            address = address + 1;
        }
        assert(out@ + puts_chars(self.memory@, address as int) =~= out@);
        out
    }

    /// The characters PUTSP writes for a packed string that starts at `start`.
    fn putsp_text(&self, start: u16) -> (r: Vec<u8>)
        ensures
            r@ == putsp_chars(self.memory@, start as int),
    {
        let mut out: Vec<u8> = Vec::new();
        let mut address: usize = start as usize;
        while address < MEMORY_MAX && self.word_at(address) != 0
            invariant
                start <= address <= MEMORY_MAX,
                out@ + putsp_chars(self.memory@, address as int) == putsp_chars(
                    self.memory@,
                    start as int,
                ),
            decreases MEMORY_MAX - address,
        {
            let w = self.word_at(address);
            let ghost before = out@;
            out.push(low_byte_of(w));
            let high = high_byte_of(w);
            if high != 0 {
                out.push(high);
            }
            assert(before + putsp_chars(self.memory@, address as int) =~= out@ + putsp_chars(
                self.memory@,
                address + 1,
            ));
            address = address + 1;
        }
        assert(out@ + putsp_chars(self.memory@, address as int) =~= out@);
        out
    }

    /// The console operation that the next step asks for: `Some` exactly
    /// when the machine is running and the word at the PC is one of the
    /// console traps (GETC, OUT, PUTS, IN, PUTSP). OUT writes the low byte of
    /// R0; PUTS and PUTSP write the string that starts at the address in R0.
    pub fn console_request(&self) -> (r: Option<ConsoleRequest>)
        ensures
            ({
                let s = self.state();
                let ins = next_instruction(s);
                let vector = trap_vector_field(ins);
                let r0 = s.registers[0];
                &&& (r is Some <==> s.running && opcode_field(ins) == 15 && 0x20 <= vector
                    <= 0x24)
                &&& r is Some && vector == 0x20 ==> r == Some(ConsoleRequest::Read)
                &&& r is Some && vector == 0x23 ==> r == Some(ConsoleRequest::ReadWithEcho)
                &&& r is Some && vector == 0x21 ==> (r matches Some(ConsoleRequest::Write(t))
                    && t@ == seq![low_byte(r0)])
                &&& r is Some && vector == 0x22 ==> (r matches Some(ConsoleRequest::Write(t))
                    && t@ == puts_chars(s.memory, r0 as int))
                &&& r is Some && vector == 0x24 ==> (r matches Some(ConsoleRequest::Write(t))
                    && t@ == putsp_chars(s.memory, r0 as int))
            }),
    {
        if !self.running {
            return None;
        }
        let instruction = self.word_at(self.get_pc() as usize);
        if crate::types::extract_opcode(instruction) != 15 {
            return None;
        }
        let r0 = self.get_register(Registers::R0).unwrap_or(0);
        match crate::types::extract_trap_vector(instruction) {
            0x20 => Some(ConsoleRequest::Read),
            0x21 => {
                let mut out: Vec<u8> = Vec::new();
                out.push(low_byte_of(r0));
                assert(out@ =~= seq![low_byte(r0)]);
                Some(ConsoleRequest::Write(out))
            },
            0x22 => Some(ConsoleRequest::Write(self.puts_text(r0))),
            0x23 => Some(ConsoleRequest::ReadWithEcho),
            0x24 => Some(ConsoleRequest::Write(self.putsp_text(r0))),
            _ => None,
        }
    }
}

} // verus!
