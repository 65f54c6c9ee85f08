use crate::sign_extend::{sext, SignExtend};
use crate::trap_vector::{is_known_trap, spec_decode_trap, TrapVector};
use vstd::prelude::*;

verus! {

/// An operation in its raw shape: the 4-bit opcode together with its operand
/// fields as the bare numbers the word carries, before they are narrowed
/// into register names. The disassembler works on this shape.
#[derive(Clone, Copy, Debug, PartialEq, Eq, Structural)]
pub enum Opcode {
    BR(bool, bool, bool),
    ADD(u16, u16, bool),
    LD(u16, u16),
    ST(u16, u16),
    JSR(bool, u16, u16),
    AND(bool, u16, u16, u16, u16),
    LDR(u16, u16, u16),
    STR(u16, u16, u16),
    UNUSED,
    NOT(u16, u16),
    LDI(u16, u16),
    STI(u16, u16),
    JMP(u16),
    RESERVED,
    LEA(u16, u16),
    TRAP(TrapVector),
}

/// The raw operation a word encodes, field by field.
pub open spec fn spec_from_instruction(w: u16) -> Opcode
    recommends
        w >> 12 == 0xf ==> is_known_trap(w & 0xff),
{
    let op = w >> 12;
    if op == 0x00 {
        Opcode::BR((w >> 11) & 0x1 == 1, (w >> 10) & 0x1 == 1, (w >> 9) & 0x1 == 1)
    } else if op == 0x01 {
        Opcode::ADD((w >> 9) & 0x7, (w >> 6) & 0x7, (w >> 5) & 0x1 == 0x1)
    } else if op == 0x02 {
        Opcode::LD((w >> 9) & 0x7, w & 0x1ff)
    } else if op == 0x03 {
        Opcode::ST((w >> 9) & 0x7, w & 0x1ff)
    } else if op == 0x04 {
        Opcode::JSR((w >> 11) & 1 == 1, w & 0x7ff, (w >> 6) & 7)
    } else if op == 0x05 {
        Opcode::AND((w >> 5) & 1 == 1, sext(w & 0x1f, 5), (w >> 9) & 0x7, (w >> 6) & 0x7, w & 0x7)
    } else if op == 0x06 {
        Opcode::LDR((w >> 9) & 0x7, (w >> 6) & 0x7, w & 0x3f)
    } else if op == 0x07 {
        Opcode::STR((w >> 9) & 0x7, (w >> 6) & 0x7, w & 0x3f)
    } else if op == 0x08 {
        Opcode::UNUSED
    } else if op == 0x09 {
        Opcode::NOT((w >> 9) & 0x7, (w >> 6) & 0x7)
    } else if op == 0x0a {
        Opcode::LDI((w >> 9) & 0x7, sext(w & 0x1ff, 9))
    } else if op == 0x0b {
        Opcode::STI((w >> 9) & 0x7, w & 0x1ff)
    } else if op == 0x0c {
        Opcode::JMP((w >> 6) & 0x7)
    } else if op == 0x0d {
        Opcode::RESERVED
    } else if op == 0x0e {
        Opcode::LEA((w >> 9) & 0x7, w & 0x1ff)
    } else {
        Opcode::TRAP(spec_decode_trap(w & 0xff))
    }
}

impl Opcode {
    /// Split a word into its opcode and raw operand fields. A TRAP word whose
    /// vector names no routine has no reading (callers refuse it first).
    pub fn from_instruction(instruction: u16) -> (r: Opcode)
        requires
            instruction >> 12 == 0xf ==> is_known_trap(instruction & 0xff),
        ensures
            r == spec_from_instruction(instruction),
    {
        proof {
            crate::instruction::lemma_field_bounds();
        }
        let value = instruction >> 12;

        if value == 0x00 {
            let n = ((instruction >> 11) & 0x1) == 1;
            let z = ((instruction >> 10) & 0x1) == 1;
            let p = ((instruction >> 9) & 0x1) == 1;

            Opcode::BR(n, z, p)
        } else if value == 0x01 {
            let r0 = (instruction >> 9) & 0x7;
            let r1 = (instruction >> 6) & 0x7;
            let immediate_flag = ((instruction >> 5) & 0x1) == 0x1;

            Opcode::ADD(r0, r1, immediate_flag)
        } else if value == 0x02 {
            Opcode::LD((instruction >> 9) & 0x7, instruction & 0x1ff)
        } else if value == 0x03 {
            Opcode::ST((instruction >> 9) & 0x7, instruction & 0x1ff)
        } else if value == 0x04 {
            let use_pc_offset = ((instruction >> 11) & 1) == 1;
            let pc_offset = instruction & 0x7ff;
            let r0 = (instruction >> 6) & 7;

            Opcode::JSR(use_pc_offset, pc_offset, r0)
        } else if value == 0x05 {
            let immediate_flag = ((instruction >> 5) & 1) == 1;
            let immediate_value = (instruction & 0x1f).sign_extend(5);

            Opcode::AND(
                immediate_flag,
                immediate_value,
                (instruction >> 9) & 0x7,
                (instruction >> 6) & 0x7,
                instruction & 0x7,
            )
        } else if value == 0x06 {
            Opcode::LDR((instruction >> 9) & 0x7, (instruction >> 6) & 0x7, instruction & 0x3f)
        } else if value == 0x07 {
            Opcode::STR((instruction >> 9) & 0x7, (instruction >> 6) & 0x7, instruction & 0x3f)
        } else if value == 0x08 {
            Opcode::UNUSED
        } else if value == 0x09 {
            Opcode::NOT((instruction >> 9) & 0x7, (instruction >> 6) & 0x7)
        } else if value == 0x0a {
            Opcode::LDI((instruction >> 9) & 0x7, (instruction & 0x1ff).sign_extend(9))
        } else if value == 0x0b {
            Opcode::STI((instruction >> 9) & 0x7, instruction & 0x1ff)
        } else if value == 0x0c {
            Opcode::JMP((instruction >> 6) & 0x7)
        } else if value == 0x0d {
            Opcode::RESERVED
        } else if value == 0x0e {
            Opcode::LEA((instruction >> 9) & 0x7, instruction & 0x1ff)
        } else {
            assert(value == 0x0f);
            Opcode::TRAP(TrapVector::decode(instruction))
        }
    }
}

} // verus!
