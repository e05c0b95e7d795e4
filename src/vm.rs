use vstd::prelude::*;

verus! {

use crate::instructions::{
    faults, fault_message, halts, lemma_keeps_single_flag, lemma_registers_after_len,
    memory_after, registers_after, ExecutionResult, InstructionExecutor,
};
use crate::memory::{lemma_memory_len, placed, Memory};
use crate::registers::{
    cond_slot, is_single_flag, lemma_register_file_len, pc_slot, RegisterFile,
};
use crate::text::{append_bool, append_decimal, append_hex, decimal_text, hex_text};
use crate::types::{Flags, Registers, MEMORY_MAX, REG_COUNT};
use vstd::string::StringExecFns;

broadcast use {lemma_memory_len, lemma_register_file_len};

/// The whole machine as a value.
pub struct MachineState {
    pub registers: Seq<u16>,
    pub memory: Seq<u16>,
    pub running: bool,
    pub instruction_count: nat,
}

/// The instruction word at the program counter of `s`.
pub open spec fn next_instruction(s: MachineState) -> u16 {
    s.memory[s.registers[pc_slot()] as int]
}

/// The registers of `s` once the fetch has advanced the program counter.
pub open spec fn fetched_registers(s: MachineState) -> Seq<u16> {
    s.registers.update(pc_slot(), s.registers[pc_slot()].wrapping_add(1))
}

/// One step: nothing when stopped; otherwise fetch, execute, count, and
/// stop on HALT or on a fault.
pub open spec fn next_state(s: MachineState) -> MachineState {
    if !s.running {
        s
    } else {
        let ins = next_instruction(s);
        let regs = fetched_registers(s);
        MachineState {
            registers: registers_after(ins, s.memory, regs),
            memory: memory_after(ins, s.memory, regs),
            running: !halts(ins) && !faults(ins),
            instruction_count: s.instruction_count + 1,
        }
    }
}

/// The state after `n` steps from `s`.
pub open spec fn state_after(s: MachineState, n: nat) -> MachineState
    decreases n,
{
    if n == 0 {
        s
    } else {
        next_state(state_after(s, (n - 1) as nat))
    }
}

/// The fault description of the step from `s`, if that step faults.
pub open spec fn step_fault(s: MachineState) -> Option<Seq<char>> {
    if s.running && faults(next_instruction(s)) {
        Some(fault_message(next_instruction(s)))
    } else {
        None
    }
}

/// Whether a run that made `n` steps from `s` ended in a fault.
pub open spec fn ended_in_fault(s: MachineState, n: nat) -> bool {
    n > 0 && step_fault(state_after(s, (n - 1) as nat)) is Some
}

/// The description of the fault that ended a run of `n` steps from `s`.
pub open spec fn final_fault(s: MachineState, n: nat) -> Seq<char> {
    step_fault(state_after(s, (n - 1) as nat))->0
}

/// A step of a stopped machine changes nothing, its counter included.
pub proof fn lemma_stopped_step(s: MachineState)
    requires
        !s.running,
    ensures
        next_state(s) == s,
{
}

/// Once COND holds a single flag, every later state keeps it so.
pub proof fn lemma_single_flag_kept(s: MachineState, n: nat)
    requires
        s.registers.len() == REG_COUNT,
        is_single_flag(s.registers[cond_slot()]),
    ensures
        state_after(s, n).registers.len() == REG_COUNT,
        is_single_flag(state_after(s, n).registers[cond_slot()]),
    decreases n,
{
    if n > 0 {
        let prev = state_after(s, (n - 1) as nat);
        lemma_single_flag_kept(s, (n - 1) as nat);
        if prev.running {
            let ins = next_instruction(prev);
            lemma_keeps_single_flag(ins, prev.memory, fetched_registers(prev));
            lemma_registers_after_len(ins, prev.memory, fetched_registers(prev));
        }
    }
}

/// `s` with the machine stopped.
pub open spec fn stopped(s: MachineState) -> MachineState {
    MachineState { running: false, ..s }
}

/// The text reported when the instruction counter can grow no further.
pub open spec fn counter_exhausted_text() -> Seq<char> {
    "Instruction counter exhausted"@
}

/// The four hexadecimal digits of register slot `i` of `regs`.
pub open spec fn register_hex(regs: Seq<u16>, i: int) -> Seq<char> {
    hex_text(regs[i] as nat, 4)
}

/// The state summary: PC, R0..R7, COND, the counter and the running flag.
pub open spec fn debug_text(s: MachineState) -> Seq<char> {
    let regs = s.registers;
    "LC-3 VM State:\nPC: 0x"@ + register_hex(regs, pc_slot()) + "\nR0: 0x"@ + register_hex(regs, 0)
        + "  R1: 0x"@ + register_hex(regs, 1) + "  R2: 0x"@ + register_hex(regs, 2) + "  R3: 0x"@
        + register_hex(regs, 3) + "\nR4: 0x"@ + register_hex(regs, 4) + "  R5: 0x"@
        + register_hex(regs, 5) + "  R6: 0x"@ + register_hex(regs, 6) + "  R7: 0x"@
        + register_hex(regs, 7) + "\nCOND: 0x"@ + register_hex(regs, cond_slot())
        + "\nInstructions executed: "@ + decimal_text(s.instruction_count) + "\nRunning: "@ + (
    if s.running {
        "true"@
    } else {
        "false"@
    })
}

/// An LC-3 machine: a register file, a memory, a running flag, and the
/// number of instructions executed since the last initialization.
#[derive(Debug)]
pub struct LC3VM {
    pub registers: RegisterFile,
    pub memory: Memory,
    pub running: bool,
    pub instruction_count: u64,
}

impl LC3VM {
    /// The machine as a value.
    pub open spec fn state(&self) -> MachineState {
        MachineState {
            registers: self.registers@,
            memory: self.memory@,
            running: self.running,
            instruction_count: self.instruction_count as nat,
        }
    }

    /// A stopped machine with every register and word zero.
    pub fn new() -> (r: Self)
        ensures
            r.registers@ == Seq::new(REG_COUNT as nat, |i: int| 0u16),
            r.memory@ == Seq::new(MEMORY_MAX as nat, |i: int| 0u16),
            !r.running,
            r.instruction_count == 0,
    {
        LC3VM {
            registers: RegisterFile::new(),
            memory: Memory::new(),
            running: false,
            instruction_count: 0,
        }
    }

    /// Loads `program` at `start_address`, points the PC at it, sets COND to
    /// ZRO, clears the counter and starts the machine. When the program would
    /// run past the last address, fails and changes nothing.
    pub fn initialize(&mut self, start_address: u16, program: &[u16]) -> (r: Result<(), String>)
        ensures
            start_address + program@.len() > MEMORY_MAX ==> r is Err && r->Err_0@
                == "Failed to load program"@ && final(self).state() == old(self).state(),
            start_address + program@.len() <= MEMORY_MAX ==> r is Ok && final(self).registers@
                == old(self).registers@.update(pc_slot(), start_address).update(
                cond_slot(),
                Flags::ZRO.spec_to_u16(),
            ) && final(self).memory@ == placed(
                old(self).memory@,
                start_address as int,
                program@,
            ) && final(self).running && final(self).instruction_count == 0,
    {
        match self.memory.load_program(start_address, program) {
            Ok(_) => {},
            Err(_) => {
                return Err(String::from_str("Failed to load program"));
            },
        }
        let _ = self.registers.set_pc(start_address);
        let _ = self.registers.update_condition_code(0);
        self.running = true;
        self.instruction_count = 0;
        Ok(())
    }

    /// Executes one instruction. On a stopped machine returns `Ok(Halt)` and
    /// changes nothing. Otherwise fetches the word at the PC (advancing the
    /// PC), executes it and counts it; HALT stops the machine, and a fault
    /// stops it and is returned as the error.
    pub fn step(&mut self) -> (r: Result<ExecutionResult, String>)
        requires
            old(self).running ==> old(self).instruction_count < u64::MAX,
        ensures
            final(self).state() == next_state(old(self).state()),
            !old(self).running ==> r == Ok::<ExecutionResult, String>(ExecutionResult::Halt),
            old(self).running ==> ({
                let ins = next_instruction(old(self).state());
                &&& halts(ins) ==> r == Ok::<ExecutionResult, String>(ExecutionResult::Halt)
                &&& faults(ins) ==> r is Err && r->Err_0@ == fault_message(ins)
                &&& !halts(ins) && !faults(ins) ==> r == Ok::<ExecutionResult, String>(
                    ExecutionResult::Continue,
                )
            }),
    {
        if !self.running {
            return Ok(ExecutionResult::Halt);
        }
        let instruction = match self.memory.fetch_instruction(&mut self.registers) {
            Some(word) => word,
            None => {
                self.running = false;
                return Err(String::from_str("Failed to fetch instruction"));
            },
        };
        let result = InstructionExecutor::execute_instruction(
            instruction,
            &mut self.memory,
            &mut self.registers,
        );
        self.instruction_count = self.instruction_count + 1;
        match result {
            ExecutionResult::Halt => {
                self.running = false;
                Ok(ExecutionResult::Halt)
            },
            ExecutionResult::Error(message) => {
                self.running = false;
                Err(message)
            },
            ExecutionResult::Continue => Ok(ExecutionResult::Continue),
        }
    }

    /// Steps until the machine stops, returning the first fault. If the
    /// instruction counter reaches its maximum while running, stops the
    /// machine and fails.
    pub fn run(&mut self) -> (r: Result<(), String>)
        ensures
            final(self).instruction_count >= old(self).instruction_count,
            r is Err ==> !final(self).running,
            ({
                let k = (final(self).instruction_count - old(self).instruction_count) as nat;
                let reached = state_after(old(self).state(), k);
                &&& r is Ok ==> final(self).state() == reached && !final(self).running
                    && !ended_in_fault(old(self).state(), k)
                &&& r is Err ==> (ended_in_fault(old(self).state(), k) && final(self).state()
                    == reached && r->Err_0@ == final_fault(old(self).state(), k)) || (
                reached.running && final(self).state() == stopped(reached)
                    && final(self).instruction_count == u64::MAX && r->Err_0@
                    == counter_exhausted_text())
            }),
    {
        let ghost start = self.state();
        let ghost first = self.instruction_count as nat;
        while self.running
            invariant
                start == old(self).state(),
                first == old(self).instruction_count,
                self.instruction_count >= first,
                self.state() == state_after(start, (self.instruction_count - first) as nat),
                self.instruction_count > first ==> step_fault(
                    state_after(start, (self.instruction_count - first - 1) as nat),
                ) is None,
            decreases u64::MAX - self.instruction_count,
        {
            if self.instruction_count == u64::MAX {
                self.running = false;
                return Err(String::from_str("Instruction counter exhausted"));
            }
            match self.step() {
                Ok(_) => {},
                Err(message) => {
                    return Err(message);
                },
            }
        }
        Ok(())
    }

    /// Steps until the machine stops or `max_instructions` instructions
    /// have been executed, returning the first fault. If the instruction
    /// counter reaches its maximum while running, stops the machine and fails.
    pub fn run_for(&mut self, max_instructions: u64) -> (r: Result<(), String>)
        ensures
            final(self).instruction_count >= old(self).instruction_count,
            final(self).instruction_count - old(self).instruction_count <= max_instructions,
            r is Err ==> !final(self).running,
            ({
                let k = (final(self).instruction_count - old(self).instruction_count) as nat;
                let reached = state_after(old(self).state(), k);
                &&& r is Ok ==> final(self).state() == reached && (!final(self).running || k
                    == max_instructions) && !ended_in_fault(old(self).state(), k)
                &&& r is Err ==> (ended_in_fault(old(self).state(), k) && final(self).state()
                    == reached && r->Err_0@ == final_fault(old(self).state(), k)) || (
                reached.running && final(self).state() == stopped(reached)
                    && final(self).instruction_count == u64::MAX && r->Err_0@
                    == counter_exhausted_text())
            }),
    {
        let ghost start = self.state();
        let ghost first = self.instruction_count as nat;
        let mut executed: u64 = 0;
        while self.running && executed < max_instructions
            invariant
                start == old(self).state(),
                first == old(self).instruction_count,
                self.instruction_count == first + executed,
                executed <= max_instructions,
                self.state() == state_after(start, executed as nat),
                executed > 0 ==> step_fault(state_after(start, (executed - 1) as nat)) is None,
            decreases max_instructions - executed,
        {
            if self.instruction_count == u64::MAX {
                self.running = false;
                return Err(String::from_str("Instruction counter exhausted"));
            }
            match self.step() {
                Ok(_) => {},
                Err(message) => {
                    return Err(message);
                },
            }
            executed = executed + 1;
        }
        Ok(())
    }

    /// The program counter.
    pub fn get_pc(&self) -> (r: u16)
        ensures
            r == self.registers.pc(),
    {
        self.registers.get_pc()
    }

    /// The value of register `reg`.
    pub fn get_register(&self, reg: Registers) -> (r: Option<u16>)
        ensures
            r == Some(self.registers.reg(reg)),
    {
        self.registers.read(reg)
    }

    /// Sets register `reg` to `value`.
    pub fn set_register(&mut self, reg: Registers, value: u16) -> (r: Result<(), String>)
        ensures
            r is Ok,
            final(self).registers@ == old(self).registers@.update(
                reg.spec_index() as int,
                value,
            ),
            final(self).memory == old(self).memory,
            final(self).running == old(self).running,
            final(self).instruction_count == old(self).instruction_count,
    {
        match self.registers.write(reg, value) {
            Ok(()) => Ok(()),
            Err(e) => {
                let mut text = String::from_str("Failed to write to register: ");
                text.append(e.to_string().as_str());
                Err(text)
            },
        }
    }

    /// The word at `address`.
    pub fn read_memory(&self, address: u16) -> (r: Option<u16>)
        ensures
            r == Some(self.memory@[address as int]),
    {
        self.memory.read(address)
    }

    /// Writes `value` at `address`.
    pub fn write_memory(&mut self, address: u16, value: u16) -> (r: Result<(), String>)
        ensures
            r is Ok,
            final(self).memory@ == old(self).memory@.update(address as int, value),
            final(self).registers == old(self).registers,
            final(self).running == old(self).running,
            final(self).instruction_count == old(self).instruction_count,
    {
        match self.memory.write(address, value) {
            Ok(()) => Ok(()),
            Err(_) => Err(String::from_str("Failed to write to memory")),
        }
    }

    /// The number of instructions executed since the last initialization.
    pub fn get_instruction_count(&self) -> (r: u64)
        ensures
            r == self.instruction_count,
    {
        self.instruction_count
    }

    /// Whether the machine is running.
    pub fn is_running(&self) -> (r: bool)
        ensures
            r == self.running,
    {
        self.running
    }

    /// Stops the machine.
    pub fn halt(&mut self)
        ensures
            final(self).state() == (MachineState { running: false, ..old(self).state() }),
    {
        self.running = false;
    }

    /// Replaces the registers and the memory with zeroed ones, stops the
    /// machine and clears the counter.
    pub fn reset(&mut self)
        ensures
            final(self).registers@ == Seq::new(REG_COUNT as nat, |i: int| 0u16),
            final(self).memory@ == Seq::new(MEMORY_MAX as nat, |i: int| 0u16),
            !final(self).running,
            final(self).instruction_count == 0,
    {
        self.registers = RegisterFile::new();
        self.memory = Memory::new();
        self.running = false;
        self.instruction_count = 0;
    }

    /// Appends `label` and then register `reg` in four hexadecimal digits.
    fn append_register(&self, text: &mut String, label: &str, reg: Registers)
        ensures
            final(text)@ == old(text)@ + label@ + register_hex(
                self.registers@,
                reg.spec_index() as int,
            ),
    {
        text.append(label);
        append_hex(text, self.get_register(reg).unwrap_or(0) as u64, 4);
    }

    /// A readable summary of the PC, the eight general registers, COND, the
    /// counter and the running flag.
    pub fn debug_info(&self) -> (r: String)
        ensures
            r@ == debug_text(self.state()),
    {
        let mut text = String::from_str("LC-3 VM State:\nPC: 0x");
        append_hex(&mut text, self.get_pc() as u64, 4);
        self.append_register(&mut text, "\nR0: 0x", Registers::R0);
        self.append_register(&mut text, "  R1: 0x", Registers::R1);
        self.append_register(&mut text, "  R2: 0x", Registers::R2);
        self.append_register(&mut text, "  R3: 0x", Registers::R3);
        self.append_register(&mut text, "\nR4: 0x", Registers::R4);
        self.append_register(&mut text, "  R5: 0x", Registers::R5);
        self.append_register(&mut text, "  R6: 0x", Registers::R6);
        self.append_register(&mut text, "  R7: 0x", Registers::R7);
        self.append_register(&mut text, "\nCOND: 0x", Registers::COND);
        text.append("\nInstructions executed: ");
        append_decimal(&mut text, self.instruction_count);
        text.append("\nRunning: ");
        append_bool(&mut text, self.running);
        assert(text@ =~= debug_text(self.state()));
        text
    }
}

impl Default for LC3VM {
    /// A stopped machine with every register and word zero.
    fn default() -> (r: Self)
        ensures
            r.registers@ == Seq::new(REG_COUNT as nat, |i: int| 0u16),
            r.memory@ == Seq::new(MEMORY_MAX as nat, |i: int| 0u16),
            !r.running,
            r.instruction_count == 0,
    {
        Self::new()
    }
}

} // verus!
