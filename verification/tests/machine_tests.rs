use lc3::cpu::ExecError;
use lc3::instruction::Register::{R0, R1, R2, R7};
use lc3::state::{Condition, State};

fn new_state() -> State {
    let mut state = State::new();
    state.pc = 0x3000;
    state
}

#[test]
fn step_add_immediate() {
    // ADDIMM R2 <- R1 + 1, placed at 0x3000 with R1 = 3.
    let mut state = new_state();
    state.registers.write(R1, 3);
    state.memory.write(0x3000, 0b0001_010_001_1_00001);

    let stepped = state.step().unwrap();

    assert_eq!(stepped.registers.read(R2), 4);
    assert_eq!(stepped.condition, Condition::P);
    assert_eq!(stepped.pc, 0x3001);
}

#[test]
fn step_add_register_wraps_around() {
    // ADD R2 <- R1 + R0 with R0 = 0xffff and R1 = 1 wraps to zero.
    let mut state = new_state();
    state.registers.write(R0, 0xffff);
    state.registers.write(R1, 1);
    state.memory.write(0x3000, 0b0001_010_001_0_00_000);

    let stepped = state.step().unwrap();

    assert_eq!(stepped.registers.read(R2), 0);
    assert_eq!(stepped.condition, Condition::Z);
}

#[test]
fn step_ldi_chain() {
    // LDI R0, 1 follows two levels of indirection to the value 42.
    let mut state = new_state();
    state.memory.write(0x3001, 0x3002);
    state.memory.write(0x3002, 0x3003);
    state.memory.write(0x3003, 42);
    state.memory.write(0x3000, 0b1010_000_000000001);

    let stepped = state.step().unwrap();

    assert_eq!(stepped.registers.read(R0), 42);
    assert_eq!(stepped.condition, Condition::P);
    assert_eq!(stepped.pc, 0x3001);
}

#[test]
fn step_br_taken_then_not_taken() {
    // BRn +5 at 0x3000: taken under CC = N, ignored under CC = P.
    let mut state = new_state();
    state.condition = Condition::N;
    state.memory.write(0x3000, 0b0000_1_0_0_000000101);

    let stepped = state.step().unwrap();
    assert_eq!(stepped.pc, 0x3006);

    let mut state = new_state();
    state.condition = Condition::P;
    state.memory.write(0x3000, 0b0000_1_0_0_000000101);

    let stepped = state.step().unwrap();
    assert_eq!(stepped.pc, 0x3001);
}

#[test]
fn step_jsr_negative_offset() {
    // JSR with pc_offset11 = 1027, which is negative in 11 bits.
    let mut state = new_state();
    state.memory.write(0x3000, 0b0100_1_10000000011);

    let stepped = state.step().unwrap();

    assert_eq!(stepped.pc, (0x3001 as u16).wrapping_add(0xfc03));
    assert_eq!(stepped.registers.read(R7), 0x3001);
}

#[test]
fn step_trap_halt() {
    let mut state = new_state();
    state.memory.write(0x3000, 0xf025);

    let stepped = state.step().unwrap();

    assert_eq!(stepped.running, false);
}

#[test]
fn step_rti_is_fatal() {
    let mut state = new_state();
    state.memory.write(0x3000, 0x8000);

    assert!(matches!(state.step(), Err(ExecError::IllegalOpcode)));
}

#[test]
fn step_reserved_is_fatal() {
    let mut state = new_state();
    state.memory.write(0x3000, 0xd000);

    assert!(matches!(state.step(), Err(ExecError::IllegalOpcode)));
}

#[test]
fn step_unknown_trap_is_fatal() {
    let mut state = new_state();
    state.memory.write(0x3000, 0xf026);

    assert!(matches!(state.step(), Err(ExecError::UnknownTrap)));

    let mut state = new_state();
    state.memory.write(0x3000, 0xf000);

    assert!(matches!(state.step(), Err(ExecError::UnknownTrap)));
}

#[test]
fn step_unimplemented_traps_are_fatal() {
    let mut state = new_state();
    state.memory.write(0x3000, 0xf023); // IN

    assert!(matches!(state.step(), Err(ExecError::UnimplementedTrap)));

    let mut state = new_state();
    state.memory.write(0x3000, 0xf024); // PUTSP

    assert!(matches!(state.step(), Err(ExecError::UnimplementedTrap)));
}

#[test]
fn memory_read_back_plain_cell() {
    let mut state = State::new();
    state.memory.write(0x1234, 0xbeef);
    assert_eq!(state.memory.read(0x1234), 0xbeef);
}

#[test]
fn memory_display_status_always_ready() {
    let mut state = State::new();
    assert_eq!(state.memory.read(0xfe04), 0x8000);
    // The display data register reads as zero.
    assert_eq!(state.memory.read(0xfe06), 0);
}

#[test]
fn memory_keyboard_data_without_ready_status_is_zero() {
    // The keyboard status cell starts as zero, so a data-register read
    // consumes nothing and yields zero.
    let mut state = State::new();
    assert_eq!(state.memory.read(0xfe02), 0);
}

#[test]
fn machine_control_register_starts_enabled() {
    let mut state = State::new();
    assert_eq!(state.memory.read(0xfffe), 0x8000);
}

#[test]
fn store_clearing_clock_enable_halts() {
    // ST R0 -> MCR with bit 15 clear stops the machine.
    let mut state = new_state();
    state.registers.write(R0, 0);
    // ST R0, +5 would write 0x3006; aim the store at MCR instead through STR.
    state.registers.write(R1, 0xfffe);
    state.memory.write(0x3000, 0b0111_000_001_000000); // STR R0, R1, #0

    let mut stepped = state.step().unwrap();

    assert_eq!(stepped.running, false);
    assert_eq!(stepped.memory.read(0xfffe) & 0x8000, 0);
}

#[test]
fn new_machine_starts_clean() {
    let state = State::new();
    assert_eq!(state.pc, 0);
    assert_eq!(state.condition, Condition::P);
    assert!(state.running);
    assert_eq!(state.registers(), [0u16; 8]);
}

#[test]
fn step_ldr_at_top_of_memory() {
    // LDR R1, R2, #1 with R2 = 0xfffe reads the very last cell, which holds
    // zero on a fresh machine.
    let mut state = new_state();
    state.registers.write(R2, 0xfffe);
    state.memory.write(0x3000, 0b0110_001_010_000001);

    let stepped = state.step().unwrap();

    assert_eq!(stepped.registers.read(R1), 0);
    assert_eq!(stepped.condition, Condition::Z);
}
