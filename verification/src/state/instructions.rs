use crate::sign_extend::{sext, SignExtend};
use crate::trap_vector::{is_known_trap, spec_decode_trap, TrapVector};
use vstd::prelude::*;

verus! {

/// An operation with its operand fields decoded but its shape kept raw: the
/// immediate flags stay as booleans beside both operand forms, rather than
/// being split into one variant per form.
#[derive(Clone, Copy, Debug, PartialEq, Eq, Structural)]
pub enum Instruction {
    BR(bool, bool, bool, u16),
    ADD(Register, Register, Register, bool, u16),
    LD(Register, u16),
    ST(Register, u16),
    JSR(bool, u16, Register),
    AND(bool, u16, Register, Register, Register),
    LDR(Register, Register, u16),
    STR(Register, Register, u16),
    UNUSED,
    NOT(Register, Register),
    LDI(Register, u16),
    STI(Register, u16),
    JMP(Register),
    RESERVED,
    LEA(Register, u16),
    TRAP(TrapVector),
}

/// One of the eight general-purpose register names.
#[derive(Clone, Copy, Debug, PartialEq, Eq, Structural)]
pub enum Register {
    R0,
    R1,
    R2,
    R3,
    R4,
    R5,
    R6,
    R7,
}

/// The register named by a 3-bit operand field.
pub open spec fn spec_register_from(n: u16) -> Register
    recommends
        n < 8,
{
    if n == 0 {
        Register::R0
    } else if n == 1 {
        Register::R1
    } else if n == 2 {
        Register::R2
    } else if n == 3 {
        Register::R3
    } else if n == 4 {
        Register::R4
    } else if n == 5 {
        Register::R5
    } else if n == 6 {
        Register::R6
    } else {
        Register::R7
    }
}

impl Register {
    /// The slot of the register file this name denotes, between 0 and 7.
    pub open spec fn as_index(self) -> int {
        match self {
            Register::R0 => 0,
            Register::R1 => 1,
            Register::R2 => 2,
            Register::R3 => 3,
            Register::R4 => 4,
            Register::R5 => 5,
            Register::R6 => 6,
            Register::R7 => 7,
        }
    }

    pub(crate) fn from(n: u16) -> (r: Register)
        requires
            n < 8,
        ensures
            r == spec_register_from(n),
            r.as_index() == n as int,
    {
        if n == 0 {
            Register::R0
        } else if n == 1 {
            Register::R1
        } else if n == 2 {
            Register::R2
        } else if n == 3 {
            Register::R3
        } else if n == 4 {
            Register::R4
        } else if n == 5 {
            Register::R5
        } else if n == 6 {
            Register::R6
        } else {
            Register::R7
        }
    }
}

/// The raw-shape instruction a word encodes, field by field.
pub open spec fn spec_decode(w: u16) -> Instruction
    recommends
        w >> 12 == 0xf ==> is_known_trap(w & 0xff),
{
    let op = w >> 12;
    if op == 0x00 {
        Instruction::BR((w >> 11) & 0x1 == 1, (w >> 10) & 0x1 == 1, (w >> 9) & 0x1 == 1, w & 0x1ff)
    } else if op == 0x01 {
        Instruction::ADD(
            spec_register_from((w >> 9) & 0x7),
            spec_register_from((w >> 6) & 0x7),
            spec_register_from(w & 0x7),
            (w >> 5) & 0x1 == 0x1,
            sext(w & 0x1f, 5),
        )
    } else if op == 0x02 {
        Instruction::LD(spec_register_from((w >> 9) & 0x7), w & 0x1ff)
    } else if op == 0x03 {
        Instruction::ST(spec_register_from((w >> 9) & 0x7), w & 0x1ff)
    } else if op == 0x04 {
        Instruction::JSR((w >> 11) & 1 == 1, w & 0x7ff, spec_register_from((w >> 6) & 7))
    } else if op == 0x05 {
        Instruction::AND(
            (w >> 5) & 1 == 1,
            sext(w & 0x1f, 5),
            spec_register_from((w >> 9) & 0x7),
            spec_register_from((w >> 6) & 0x7),
            spec_register_from(w & 0x7),
        )
    } else if op == 0x06 {
        Instruction::LDR(
            spec_register_from((w >> 9) & 0x7),
            spec_register_from((w >> 6) & 0x7),
            w & 0x3f,
        )
    } else if op == 0x07 {
        Instruction::STR(
            spec_register_from((w >> 9) & 0x7),
            spec_register_from((w >> 6) & 0x7),
            w & 0x3f,
        )
    } else if op == 0x08 {
        Instruction::UNUSED
    } else if op == 0x09 {
        Instruction::NOT(spec_register_from((w >> 9) & 0x7), spec_register_from((w >> 6) & 0x7))
    } else if op == 0x0a {
        Instruction::LDI(spec_register_from((w >> 9) & 0x7), sext(w & 0x1ff, 9))
    } else if op == 0x0b {
        Instruction::STI(spec_register_from((w >> 9) & 0x7), w & 0x1ff)
    } else if op == 0x0c {
        Instruction::JMP(spec_register_from((w >> 6) & 0x7))
    } else if op == 0x0d {
        Instruction::RESERVED
    } else if op == 0x0e {
        Instruction::LEA(spec_register_from((w >> 9) & 0x7), w & 0x1ff)
    } else {
        Instruction::TRAP(spec_decode_trap(w & 0xff))
    }
}

impl Instruction {
    /// Decode a 16-bit word into the raw shape. A TRAP word whose vector
    /// names no recognized routine has no decoding.
    pub fn decode(instruction: u16) -> (r: Self)
        requires
            instruction >> 12 == 0xf ==> is_known_trap(instruction & 0xff),
        ensures
            r == spec_decode(instruction),
    {
        proof {
            crate::instruction::lemma_field_bounds();
        }
        let value = instruction >> 12;

        if value == 0x00 {
            let n = ((instruction >> 11) & 0x1) == 1;
            let z = ((instruction >> 10) & 0x1) == 1;
            let p = ((instruction >> 9) & 0x1) == 1;
            let pc_offset = instruction & 0x1ff;

            Instruction::BR(n, z, p, pc_offset)
        } else if value == 0x01 {
            let r0 = Register::from((instruction >> 9) & 0x7);
            let r1 = Register::from((instruction >> 6) & 0x7);
            let r2 = Register::from(instruction & 0x7);
            let immediate_flag = ((instruction >> 5) & 0x1) == 0x1;
            let immediate_value = (instruction & 0x1f).sign_extend(5);

            Instruction::ADD(r0, r1, r2, immediate_flag, immediate_value)
        } else if value == 0x02 {
            Instruction::LD(Register::from((instruction >> 9) & 0x7), instruction & 0x1ff)
        } else if value == 0x03 {
            Instruction::ST(Register::from((instruction >> 9) & 0x7), instruction & 0x1ff)
        } else if value == 0x04 {
            let use_pc_offset = ((instruction >> 11) & 1) == 1;
            let r0 = Register::from((instruction >> 6) & 7);
            let pc_offset = instruction & 0x7ff;

            Instruction::JSR(use_pc_offset, pc_offset, r0)
        } else if value == 0x05 {
            let immediate_flag = ((instruction >> 5) & 1) == 1;
            let immediate_value = (instruction & 0x1f).sign_extend(5);

            Instruction::AND(
                immediate_flag,
                immediate_value,
                Register::from((instruction >> 9) & 0x7),
                Register::from((instruction >> 6) & 0x7),
                Register::from(instruction & 0x7),
            )
        } else if value == 0x06 {
            Instruction::LDR(
                Register::from((instruction >> 9) & 0x7),
                Register::from((instruction >> 6) & 0x7),
                instruction & 0x3f,
            )
        } else if value == 0x07 {
            Instruction::STR(
                Register::from((instruction >> 9) & 0x7),
                Register::from((instruction >> 6) & 0x7),
                instruction & 0x3f,
            )
        } else if value == 0x08 {
            Instruction::UNUSED
        } else if value == 0x09 {
            Instruction::NOT(
                Register::from((instruction >> 9) & 0x7),
                Register::from((instruction >> 6) & 0x7),
            )
        } else if value == 0x0a {
            Instruction::LDI(
                Register::from((instruction >> 9) & 0x7),
                (instruction & 0x1ff).sign_extend(9),
            )
        } else if value == 0x0b {
            Instruction::STI(Register::from((instruction >> 9) & 0x7), instruction & 0x1ff)
        } else if value == 0x0c {
            Instruction::JMP(Register::from((instruction >> 6) & 0x7))
        } else if value == 0x0d {
            Instruction::RESERVED
        } else if value == 0x0e {
            Instruction::LEA(Register::from((instruction >> 9) & 0x7), instruction & 0x1ff)
        } else {
            assert(value == 0x0f);
            Instruction::TRAP(TrapVector::decode(instruction))
        }
    }
}

} // verus!
