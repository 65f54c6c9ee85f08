use lc3::opcode::Opcode;
use lc3::state::instructions::{Instruction as RawInstruction, Register as RawRegister};
use lc3::trap_vector::TrapVector;

#[test]
fn raw_shape_decode_add_immediate() {
    assert_eq!(
        RawInstruction::decode(0b0001_010_001_1_00001),
        RawInstruction::ADD(RawRegister::R2, RawRegister::R1, RawRegister::R1, true, 1)
    );
}

#[test]
fn raw_shape_decode_add_register() {
    assert_eq!(
        RawInstruction::decode(0b0001_010_001_0_00_000),
        RawInstruction::ADD(RawRegister::R2, RawRegister::R1, RawRegister::R0, false, 0)
    );
}

#[test]
fn raw_shape_decode_jsr_keeps_eleven_bit_offset() {
    assert_eq!(
        RawInstruction::decode(0b0100_1_10000000011),
        RawInstruction::JSR(true, 1027, RawRegister::R0)
    );
}

#[test]
fn raw_shape_decode_br() {
    assert_eq!(
        RawInstruction::decode(0b0000_1_0_1_000000101),
        RawInstruction::BR(true, false, true, 5)
    );
}

#[test]
fn raw_shape_decode_trap() {
    assert_eq!(
        RawInstruction::decode(0b1111_0000_00100000),
        RawInstruction::TRAP(TrapVector::GETC)
    );
}

#[test]
fn opcode_fields_add() {
    assert_eq!(
        Opcode::from_instruction(0b0001_010_001_1_00001),
        Opcode::ADD(2, 1, true)
    );
}

#[test]
fn opcode_fields_and_immediate() {
    // The five-bit immediate 0b11111 is minus one once sign-extended.
    assert_eq!(
        Opcode::from_instruction(0b0101_001_010_1_11111),
        Opcode::AND(true, 0xffff, 1, 2, 7)
    );
}

#[test]
fn opcode_fields_trap() {
    assert_eq!(
        Opcode::from_instruction(0xf022),
        Opcode::TRAP(TrapVector::PUTS)
    );
}
