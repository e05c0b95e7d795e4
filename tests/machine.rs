use lc3::{ExecutionResult, Registers, LC3VM, PC_START};

#[test]
fn add_then_halt() {
    let mut vm = LC3VM::new();
    // ADD R0, R0, #5; TRAP x25
    vm.initialize(0x3000, &[0x1025, 0xF025]).unwrap();
    assert_eq!(vm.run(), Ok(()));
    assert_eq!(vm.get_register(Registers::R0), Some(5));
    assert_eq!(vm.get_register(Registers::COND), Some(1));
    assert_eq!(vm.get_instruction_count(), 2);
    assert!(!vm.is_running());
}

#[test]
fn lea_points_past_itself() {
    let mut vm = LC3VM::new();
    // LEA R1, #1; TRAP x25
    vm.initialize(0x3000, &[0xE201, 0xF025]).unwrap();
    assert_eq!(vm.run(), Ok(()));
    assert_eq!(vm.get_register(Registers::R1), Some(0x3002));
    assert_eq!(vm.get_register(Registers::COND), Some(1));
}

#[test]
fn lea_zero_points_at_next_word() {
    let mut vm = LC3VM::new();
    // LEA R1, #0; TRAP x25
    vm.initialize(0x3000, &[0xE200, 0xF025]).unwrap();
    assert_eq!(vm.run(), Ok(()));
    assert_eq!(vm.get_register(Registers::R1), Some(0x3001));
}

#[test]
fn and_with_zero_clears() {
    let mut vm = LC3VM::new();
    // AND R2, R2, #0; TRAP x25
    vm.initialize(0x3000, &[0x54A0, 0xF025]).unwrap();
    vm.set_register(Registers::R2, 0x1234).unwrap();
    assert_eq!(vm.run(), Ok(()));
    assert_eq!(vm.get_register(Registers::R2), Some(0));
    assert_eq!(vm.get_register(Registers::COND), Some(2));
}

#[test]
fn unknown_trap_stops_with_error() {
    let mut vm = LC3VM::new();
    vm.initialize(0x3000, &[0xFFFF]).unwrap();
    assert_eq!(vm.step(), Err("Unknown trap vector: 0xFF".to_string()));
    assert!(!vm.is_running());
    assert_eq!(vm.get_instruction_count(), 1);
}

#[test]
fn initialize_past_end_fails() {
    let mut vm = LC3VM::new();
    assert_eq!(vm.initialize(0xFFFF, &[1, 2]), Err("Failed to load program".to_string()));
    assert!(!vm.is_running());
    assert_eq!(vm.get_pc(), 0);
    assert_eq!(vm.read_memory(0xFFFF), Some(0));
    assert_eq!(vm.get_register(Registers::COND), Some(0));
}

#[test]
fn initialize_up_to_last_address() {
    let mut vm = LC3VM::new();
    assert_eq!(vm.initialize(0xFFFF, &[0xF025]), Ok(()));
    assert!(vm.is_running());
    assert_eq!(vm.get_pc(), 0xFFFF);
    assert_eq!(vm.get_register(Registers::COND), Some(2));
    assert_eq!(vm.step(), Ok(ExecutionResult::Halt));
    assert_eq!(vm.get_pc(), 0);
}

#[test]
fn step_on_stopped_machine_does_nothing() {
    let mut vm = LC3VM::new();
    vm.write_memory(0, 0x1025).unwrap();
    assert_eq!(vm.step(), Ok(ExecutionResult::Halt));
    assert_eq!(vm.get_instruction_count(), 0);
    assert_eq!(vm.get_pc(), 0);
    assert_eq!(vm.get_register(Registers::R0), Some(0));
    vm.initialize(PC_START, &[0xF025]).unwrap();
    assert_eq!(vm.step(), Ok(ExecutionResult::Halt));
    assert_eq!(vm.get_instruction_count(), 1);
    assert_eq!(vm.step(), Ok(ExecutionResult::Halt));
    assert_eq!(vm.get_instruction_count(), 1);
    assert_eq!(vm.get_pc(), 0x3001);
}

#[test]
fn step_returns_continue() {
    let mut vm = LC3VM::new();
    vm.initialize(PC_START, &[0x1025, 0xF025]).unwrap();
    assert_eq!(vm.step(), Ok(ExecutionResult::Continue));
    assert!(vm.is_running());
    assert_eq!(vm.get_pc(), 0x3001);
    assert_eq!(vm.get_instruction_count(), 1);
}

#[test]
fn run_for_stops_after_limit() {
    let mut vm = LC3VM::new();
    // BRnzp #-1 loops on itself forever
    vm.initialize(PC_START, &[0x0FFF]).unwrap();
    assert_eq!(vm.run_for(10), Ok(()));
    assert_eq!(vm.get_instruction_count(), 10);
    assert!(vm.is_running());
    assert_eq!(vm.get_pc(), PC_START);
    assert_eq!(vm.run_for(0), Ok(()));
    assert_eq!(vm.get_instruction_count(), 10);
    assert_eq!(vm.run_for(5), Ok(()));
    assert_eq!(vm.get_instruction_count(), 15);
}

#[test]
fn run_for_stops_at_halt() {
    let mut vm = LC3VM::new();
    vm.initialize(PC_START, &[0x1021, 0x1021, 0xF025]).unwrap();
    assert_eq!(vm.run_for(100), Ok(()));
    assert_eq!(vm.get_instruction_count(), 3);
    assert!(!vm.is_running());
    assert_eq!(vm.get_register(Registers::R0), Some(2));
}

#[test]
fn run_reports_first_fault() {
    let mut vm = LC3VM::new();
    vm.initialize(PC_START, &[0x1021, 0x8000, 0x1021]).unwrap();
    assert_eq!(vm.run(), Err("RTI instruction not implemented".to_string()));
    assert!(!vm.is_running());
    assert_eq!(vm.get_instruction_count(), 2);
    assert_eq!(vm.get_register(Registers::R0), Some(1));
    let mut vm = LC3VM::new();
    vm.initialize(PC_START, &[0xD000]).unwrap();
    assert_eq!(vm.run_for(4), Err("RES instruction is reserved".to_string()));
    assert_eq!(vm.get_instruction_count(), 1);
}

#[test]
fn counting_loop() {
    let mut vm = LC3VM::new();
    // AND R0,R0,#0; ADD R1,R1,#-3 ... loop: ADD R0,R0,#1; ADD R1,R1,#1; BRn loop; HALT
    let program = [0x5020, 0x127D, 0x1021, 0x1261, 0x09FD, 0xF025];
    vm.initialize(PC_START, &program).unwrap();
    assert_eq!(vm.run(), Ok(()));
    assert_eq!(vm.get_register(Registers::R0), Some(3));
    assert_eq!(vm.get_register(Registers::R1), Some(0));
    assert_eq!(vm.get_instruction_count(), 2 + 3 * 3 + 1);
}

#[test]
fn subroutine_call_and_return() {
    let mut vm = LC3VM::new();
    // JSR #2; HALT; (pad); ADD R0,R0,#7; RET
    let program = [0x4802, 0xF025, 0x0000, 0x1027, 0xC1C0];
    vm.initialize(PC_START, &program).unwrap();
    assert_eq!(vm.run(), Ok(()));
    assert_eq!(vm.get_register(Registers::R0), Some(7));
    assert_eq!(vm.get_register(Registers::R7), Some(0x3001));
    assert_eq!(vm.get_instruction_count(), 4);
}

#[test]
fn halt_and_reset() {
    let mut vm = LC3VM::default();
    vm.initialize(PC_START, &[0x0FFF]).unwrap();
    vm.run_for(3).unwrap();
    vm.halt();
    assert!(!vm.is_running());
    assert_eq!(vm.get_instruction_count(), 3);
    assert_eq!(vm.run(), Ok(()));
    assert_eq!(vm.get_instruction_count(), 3);
    vm.reset();
    assert!(!vm.is_running());
    assert_eq!(vm.get_instruction_count(), 0);
    assert_eq!(vm.get_pc(), 0);
    assert_eq!(vm.read_memory(PC_START), Some(0));
    assert_eq!(vm.get_register(Registers::COND), Some(0));
}

#[test]
fn register_and_memory_access() {
    let mut vm = LC3VM::new();
    assert_eq!(vm.set_register(Registers::R6, 0xFEED), Ok(()));
    assert_eq!(vm.get_register(Registers::R6), Some(0xFEED));
    assert_eq!(vm.write_memory(0x1234, 0x4321), Ok(()));
    assert_eq!(vm.read_memory(0x1234), Some(0x4321));
    assert_eq!(vm.set_register(Registers::PC, 0x0042), Ok(()));
    assert_eq!(vm.get_pc(), 0x0042);
}

#[test]
fn debug_summary() {
    let mut vm = LC3VM::new();
    vm.initialize(PC_START, &[0x1025, 0xF025]).unwrap();
    vm.set_register(Registers::R7, 0xABCD).unwrap();
    vm.run().unwrap();
    let expected = "LC-3 VM State:\n\
        PC: 0x3002\n\
        R0: 0x0005  R1: 0x0000  R2: 0x0000  R3: 0x0000\n\
        R4: 0x0000  R5: 0x0000  R6: 0x0000  R7: 0xABCD\n\
        COND: 0x0001\n\
        Instructions executed: 2\n\
        Running: false";
    assert_eq!(vm.debug_info(), expected);
    let fresh = LC3VM::new();
    assert!(fresh.debug_info().ends_with("Instructions executed: 0\nRunning: false"));
}

#[test]
fn run_stops_when_counter_is_exhausted() {
    let mut vm = LC3VM::new();
    vm.initialize(PC_START, &[0x0FFF]).unwrap();
    vm.instruction_count = u64::MAX - 2;
    assert_eq!(vm.run(), Err("Instruction counter exhausted".to_string()));
    assert_eq!(vm.get_instruction_count(), u64::MAX);
    assert!(!vm.is_running());
    assert_eq!(vm.run_for(3), Ok(()));
    vm.running = true;
    assert_eq!(vm.run_for(3), Err("Instruction counter exhausted".to_string()));
    assert_eq!(vm.get_instruction_count(), u64::MAX);
    assert!(!vm.is_running());
}

#[test]
fn machine_debug_format() {
    let vm = LC3VM::new();
    let text = format!("{:?}", vm);
    assert!(text.starts_with("LC3VM"));
    assert!(text.contains("running: false"));
}
