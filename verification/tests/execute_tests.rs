use lc3::cpu::execute;
use lc3::instruction::Condition as BranchCondition;
use lc3::instruction::Instruction::{ADD, ADDIMM, AND, ANDIMM, BR, JMP, JSR, JSRR, LD, LDI, LDR, LEA, NOT, ST, STI, STR, TRAP};
use lc3::instruction::Register::{R0, R1, R2, R3, R7};
use lc3::state::{Condition, State};
use lc3::trap_vector::TrapVector;

fn new_state() -> State {
    let mut state = State::new();
    state.pc = 0x3000;
    state
}

#[test]
fn process_addimm() {
    let mut state = new_state();
    state.registers.write(R1, 3);

    state = execute(state, ADDIMM(R2, R1, 1));

    assert_eq!(state.registers.read(R2), 4);
    assert_eq!(state.condition, Condition::P);
}

#[test]
fn process_add() {
    let mut state = new_state();
    state.registers.write(R0, 2);
    state.registers.write(R1, 3);

    state = execute(state, ADD(R2, R1, R0));

    assert_eq!(state.registers.read(R2), 5);
    assert_eq!(state.condition, Condition::P);
}

#[test]
fn cpu_process_ldi() {
    let mut state = new_state();
    state.memory.write(0x3001, 0x3002);
    state.memory.write(0x3002, 0x3003);
    state.memory.write(0x3003, 42);

    state = execute(state, LDI(R0, 1));

    assert_eq!(state.registers.read(R0), 42);
    assert_eq!(state.condition, Condition::P);
}

#[test]
fn cpu_process_jmp() {
    let mut state = new_state();
    state.registers.write(R2, 5);

    state = execute(state, JMP(R2));

    assert_eq!(state.pc, 5);
}

#[test]
fn cpu_process_jmp_ret() {
    let mut state = new_state();
    state.registers.write(R7, 42);

    state = execute(state, JMP(R7));

    assert_eq!(state.pc, 42);
}

#[test]
fn cpu_process_br_n_true() {
    let mut state = new_state();
    state.condition = Condition::N;

    let condition = BranchCondition {
        n: true,
        z: false,
        p: false,
    };
    state = execute(state, BR(condition, 5));

    // incremented pc + 5
    assert_eq!(state.pc, 0x3006);
}

#[test]
fn cpu_process_br_n_false() {
    let mut state = new_state();
    state.condition = Condition::P;

    let condition = BranchCondition {
        n: false,
        z: false,
        p: false,
    };
    state = execute(state, BR(condition, 5));

    // incremented pc + 1 (ignores the pc_offset)
    assert_eq!(state.pc, 0x3001);
}

#[test]
fn process_br_any() {
    let mut state = new_state();
    state.condition = Condition::Z;

    let condition = BranchCondition {
        n: false,
        z: false,
        p: false,
    };
    state = execute(state, BR(condition, 5));

    // incremented pc + 1 (ignores the pc_offset)
    assert_eq!(state.pc, 0x3001);
}

#[test]
fn cpu_process_ld() {
    let mut state = new_state();
    state.condition = Condition::P;
    state.memory.write(0x3000 + 1 + 5, 42);

    state = execute(state, LD(R3, 5));

    assert_eq!(state.registers.read(R3), 42);
    assert_eq!(state.condition, Condition::P);
}

#[test]
fn cpu_process_st() {
    let mut state = new_state();
    state.registers.write(R3, 42);
    state.condition = Condition::P;

    state = execute(state, ST(R3, 5));

    assert_eq!(state.memory.read(0x3000 + 1 + 5), 42);
}

#[test]
fn cpu_process_jsrr() {
    let mut state = new_state();
    state.registers.write(R3, 42);

    state = execute(state, JSRR(R3));

    assert_eq!(state.pc, 42);
    assert_eq!(state.registers.read(R7), 0x3001);
}

#[test]
fn cpu_process_jsr() {
    let mut state = new_state();

    state = execute(state, JSR(0b10000000011)); // 1027

    assert_eq!(state.pc, (0x3001 as u16).wrapping_add(0b11111100_00000011));
    //                      `incremented pc           ^
    //                                                `sign extended 1027
    assert_eq!(state.registers.read(R7), 0x3001);
}

#[test]
fn cpu_process_and() {
    let mut state = new_state();
    state.registers.write(R2, 3);
    state.registers.write(R3, 5);

    state = execute(state, AND(R1, R2, R3));

    assert_eq!(state.registers.read(R1), 3 & 5);
}

#[test]
fn cpu_process_andimm() {
    let mut state = new_state();
    state.registers.write(R2, 3);

    state = execute(state, ANDIMM(5, R1, R2));

    assert_eq!(state.registers.read(R1), 3 & 5);
}

#[test]
fn cpu_process_ldr() {
    let mut state = new_state();
    state.registers.write(R2, 1);
    state.memory.write(1 + 3, 42);

    state = execute(state, LDR(R1, R2, 3));

    assert_eq!(state.registers.read(R1), 42);
    assert_eq!(state.condition, Condition::P);
}

#[test]
fn cpu_process_str() {
    let mut state = new_state();
    state.registers.write(R1, 42);
    state.registers.write(R2, 2);

    state = execute(state, STR(R1, R2, 3));

    assert_eq!(state.memory.read(2 + 3), 42);
}

#[test]
fn cpu_process_not() {
    let mut state = new_state();
    let a = 0b11111111_11010110; // -42
    state.registers.write(R2, a);

    state = execute(state, NOT(R1, R2));

    assert_eq!(state.registers.read(R1), !a);
    assert_eq!(state.registers.read(R1), 0b00000000_00101001);
    assert_eq!(state.condition, Condition::P);
}

#[test]
fn cpu_process_sti() {
    let mut state = new_state();
    let address = 3;
    state.registers.write(R1, 42);
    state.memory.write(state.pc + 1 + 2, address);

    state = execute(state, STI(R1, 2));

    assert_eq!(state.memory.read(address), 42);
}

#[test]
fn cpu_process_lea() {
    let mut state = new_state();

    state = execute(state, LEA(R1, 2));

    assert_eq!(state.registers.read(R1), 0x3000 + 1 + 2);
}

#[test]
fn cpu_process_trap_halt() {
    let mut state = new_state();

    state = execute(state, TRAP(TrapVector::HALT));

    assert_eq!(state.running, false);
}
