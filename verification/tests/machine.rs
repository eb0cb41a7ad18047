use lc3_vm::vm::cpu::{Cpu, Effect, FL_NEG, FL_POS, FL_ZERO};
use lc3_vm::vm::machine::{Machine, RunState};
use lc3_vm::vm::semantics::Fault;

fn loaded(origin: u16, program: &[u16]) -> Box<Machine> {
    let mut machine = Box::new(Machine::new());
    for (index, word) in program.iter().enumerate() {
        machine.write(origin.wrapping_add(index as u16), *word);
    }
    machine.set_pc(origin);
    machine
}

#[test]
fn a_new_machine_is_reset_and_running() {
    let machine = Box::new(Machine::new());
    assert_eq!(machine.state(), RunState::Running);
    for index in 0..8 {
        assert_eq!(machine.register(index), 0);
    }
    assert_eq!(machine.register(Cpu::PC), 0x3000);
    assert_eq!(machine.register(Cpu::COND), FL_ZERO);
    for addr in 0..=u16::MAX {
        assert_eq!(machine.read(addr), 0);
    }
}

#[test]
fn one_cycle_of_add_immediate() {
    let mut machine = Box::new(Machine::new());
    // ADD R0, R0, #5
    machine.write(0x3000, 0x1025);
    assert_eq!(machine.step(), Ok(Effect::Nothing));
    assert_eq!(machine.register(Cpu::R0), 5);
    assert_eq!(machine.register(Cpu::COND), FL_POS);
    assert_eq!(machine.register(Cpu::PC), 0x3001);
    assert_eq!(machine.state(), RunState::Running);
}

#[test]
fn the_reserved_opcode_ends_the_simulation() {
    // RESERVED; ADD R0, R0, #5
    let mut machine = loaded(0x3000, &[0xD000, 0x1025]);
    assert_eq!(machine.exec(10), Err(Fault::InvalidOpcode));
    assert_eq!(machine.state(), RunState::Faulted(Fault::InvalidOpcode));
    assert_eq!(machine.register(Cpu::PC), 0x3001);
    assert_eq!(machine.register(Cpu::R0), 0);
    assert_eq!(machine.exec(10), Err(Fault::InvalidOpcode));
    assert_eq!(machine.step(), Err(Fault::InvalidOpcode));
    assert_eq!(machine.register(Cpu::PC), 0x3001);
    assert_eq!(machine.register(Cpu::R0), 0);
    assert_eq!(machine.state(), RunState::Faulted(Fault::InvalidOpcode));
}

#[test]
fn a_fault_in_the_middle_of_a_program_stops_it_there() {
    // ADD R0, R0, #1; RTI; ADD R0, R0, #1
    let mut machine = loaded(0x3000, &[0x1021, 0x8000, 0x1021]);
    assert_eq!(machine.exec(100), Err(Fault::UnsupportedInstruction));
    assert_eq!(machine.register(Cpu::R0), 1);
    assert_eq!(machine.register(Cpu::PC), 0x3002);
    assert_eq!(machine.state(), RunState::Faulted(Fault::UnsupportedInstruction));
    // TRAP x26
    let mut machine = loaded(0x3000, &[0xF026]);
    assert_eq!(machine.exec(100), Err(Fault::InvalidTrapVector));
    assert_eq!(machine.register(Cpu::R7), 0);
    assert_eq!(machine.state(), RunState::Faulted(Fault::InvalidTrapVector));
}

#[test]
fn halt_is_final() {
    // HALT; ADD R0, R0, #5
    let mut machine = loaded(0x3000, &[0xF025, 0x1025]);
    assert_eq!(machine.state(), RunState::Running);
    assert_eq!(machine.exec(100), Ok(Effect::Halt));
    assert_eq!(machine.state(), RunState::Halted);
    assert_eq!(machine.register(Cpu::PC), 0x3001);
    assert_eq!(machine.register(Cpu::R7), 0x3001);
    assert_eq!(machine.step(), Ok(Effect::Halt));
    assert_eq!(machine.exec(100), Ok(Effect::Halt));
    assert_eq!(machine.register(Cpu::PC), 0x3001);
    assert_eq!(machine.register(Cpu::R0), 0);
    assert_eq!(machine.state(), RunState::Halted);
}

#[test]
fn only_the_halt_trap_halts() {
    // TRAP x21; TRAP x20; TRAP x23
    let mut machine = loaded(0x3000, &[0xF021, 0xF020, 0xF023]);
    assert_eq!(machine.step(), Ok(Effect::PutChar(0)));
    assert_eq!(machine.state(), RunState::Running);
    assert_eq!(machine.step(), Ok(Effect::GetChar));
    assert_eq!(machine.state(), RunState::Running);
    assert_eq!(machine.step(), Ok(Effect::PromptChar));
    assert_eq!(machine.state(), RunState::Running);
}

#[test]
fn a_countdown_loop_runs_to_the_halt() {
    let program = [
        0x5020, // AND R0, R0, #0
        0x1023, // ADD R0, R0, #3
        0x1260, // ADD R1, R1, #0
        0x1261, // ADD R1, R1, #1
        0x103F, // ADD R0, R0, #-1
        0x03FD, // BRp #-3
        0xF025, // HALT
    ];
    let mut machine = loaded(0x3000, &program);
    assert_eq!(machine.exec(1000), Ok(Effect::Halt));
    assert_eq!(machine.register(Cpu::R0), 0);
    assert_eq!(machine.register(Cpu::R1), 3);
    assert_eq!(machine.register(Cpu::COND), FL_ZERO);
    assert_eq!(machine.register(Cpu::PC), 0x3007);
    assert_eq!(machine.state(), RunState::Halted);
}

#[test]
fn a_run_ends_when_its_budget_is_used_up() {
    let program = [
        0x1021, // ADD R0, R0, #1
        0x0FFE, // BRnzp #-2
    ];
    let mut machine = loaded(0x3000, &program);
    assert_eq!(machine.exec(0), Ok(Effect::Nothing));
    assert_eq!(machine.register(Cpu::PC), 0x3000);
    assert_eq!(machine.register(Cpu::R0), 0);
    assert_eq!(machine.exec(7), Ok(Effect::Nothing));
    assert_eq!(machine.register(Cpu::R0), 4);
    assert_eq!(machine.register(Cpu::PC), 0x3001);
    assert_eq!(machine.exec(1), Ok(Effect::Nothing));
    assert_eq!(machine.register(Cpu::PC), 0x3000);
    assert_eq!(machine.state(), RunState::Running);
}

#[test]
fn empty_memory_is_a_row_of_branches_never_taken() {
    let mut machine = Box::new(Machine::new());
    assert_eq!(machine.exec(5), Ok(Effect::Nothing));
    assert_eq!(machine.register(Cpu::PC), 0x3005);
    assert_eq!(machine.register(Cpu::COND), FL_ZERO);
}

#[test]
fn the_program_counter_wraps_around() {
    // LEA R0, #0 at the last address
    let mut machine = loaded(0xFFFF, &[0xE000]);
    assert_eq!(machine.step(), Ok(Effect::Nothing));
    assert_eq!(machine.register(Cpu::PC), 0x0000);
    assert_eq!(machine.register(Cpu::R0), 0x0000);
    assert_eq!(machine.register(Cpu::COND), FL_ZERO);
}

#[test]
fn offsets_count_from_the_next_instruction() {
    let program = [
        0x2000, // LD R0, #0
        0x8765, // data, and a return from interrupt if it were executed
    ];
    let mut machine = loaded(0x3000, &program);
    assert_eq!(machine.step(), Ok(Effect::Nothing));
    assert_eq!(machine.register(Cpu::R0), 0x8765);
    assert_eq!(machine.register(Cpu::COND), FL_NEG);
    // BRnzp #-1 branches to itself
    let mut machine = loaded(0x3000, &[0x0FFF]);
    assert_eq!(machine.exec(9), Ok(Effect::Nothing));
    assert_eq!(machine.register(Cpu::PC), 0x3000);
    // JSR #0 links and goes on with the next instruction
    let mut machine = loaded(0x3000, &[0x4800]);
    assert_eq!(machine.step(), Ok(Effect::Nothing));
    assert_eq!(machine.register(Cpu::PC), 0x3001);
    assert_eq!(machine.register(Cpu::R7), 0x3001);
}

#[test]
fn a_program_prints_a_string_and_halts() {
    let program = [
        0xE002, // LEA R0, #2
        0xF022, // PUTS
        0xF025, // HALT
        0x0048, // 'H'
        0x0069, // 'i'
        0x0000,
    ];
    let mut machine = loaded(0x3000, &program);
    assert_eq!(machine.exec(100), Ok(Effect::PutString(vec![0x48, 0x69])));
    assert_eq!(machine.state(), RunState::Running);
    assert_eq!(machine.register(Cpu::PC), 0x3002);
    assert_eq!(machine.exec(100), Ok(Effect::Halt));
    assert_eq!(machine.state(), RunState::Halted);
}

#[test]
fn a_program_echoes_a_character() {
    let program = [
        0xF020, // GETC
        0x1021, // ADD R0, R0, #1
        0xF021, // OUT
        0xF025, // HALT
    ];
    let mut machine = loaded(0x3000, &program);
    assert_eq!(machine.exec(100), Ok(Effect::GetChar));
    machine.receive_char(b'a');
    assert_eq!(machine.register(Cpu::R0), 0x61);
    assert_eq!(machine.register(Cpu::COND), FL_POS);
    assert_eq!(machine.exec(100), Ok(Effect::PutChar(b'b')));
    assert_eq!(machine.exec(100), Ok(Effect::Halt));
}

#[test]
fn a_subroutine_returns_to_its_caller() {
    let program = [
        0x4802, // JSR #2
        0x1021, // ADD R0, R0, #1
        0xF025, // HALT
        0x1025, // ADD R0, R0, #5
        0xC1C0, // RET
    ];
    let mut machine = loaded(0x3000, &program);
    assert_eq!(machine.exec(100), Ok(Effect::Halt));
    assert_eq!(machine.register(Cpu::R0), 6);
}

#[test]
fn a_program_can_store_to_memory() {
    let program = [
        0x2002, // LD R0, #2
        0x3002, // ST R0, #2
        0xF025, // HALT
        0x1234,
        0x0000,
    ];
    let mut machine = loaded(0x3000, &program);
    assert_eq!(machine.exec(100), Ok(Effect::Halt));
    assert_eq!(machine.read(0x3004), 0x1234);
    assert_eq!(machine.read(0x3003), 0x1234);
}

#[test]
fn memory_and_program_counter_can_be_set() {
    let mut machine = Box::new(Machine::new());
    machine.write(0x0000, 0x1111);
    machine.write(0xFFFF, 0x2222);
    machine.set_pc(0x4000);
    assert_eq!(machine.read(0x0000), 0x1111);
    assert_eq!(machine.read(0xFFFF), 0x2222);
    assert_eq!(machine.read(0x0001), 0);
    assert_eq!(machine.register(Cpu::PC), 0x4000);
    assert_eq!(machine.register(Cpu::COND), FL_ZERO);
    assert_eq!(machine.state(), RunState::Running);
}
