use crate::sign_extend::{sext, SignExtend};
use crate::trap_vector::{is_known_trap, spec_decode_trap, TrapVector};
use vstd::prelude::*;

verus! {

/// A decoded operation. The raw 4-bit opcodes are split into one variant per
/// canonical operation shape (ADD versus ADDIMM, JSR versus JSRR), so that the
/// executor can match exhaustively and invalid shapes are unrepresentable.
#[derive(Clone, Copy, Debug, PartialEq, Eq, Structural)]
pub enum Instruction {
    BR(Condition, u16),
    ADD(Register, Register, Register),
    ADDIMM(Register, Register, u16),
    LD(Register, u16),
    ST(Register, u16),
    JSR(u16),
    JSRR(Register),
    AND(Register, Register, Register),
    ANDIMM(u16, Register, Register),
    LDR(Register, Register, u16),
    STR(Register, Register, u16),
    UNUSED,
    NOT(Register, Register),
    LDI(Register, u16),
    STI(Register, u16),
    JMP(Register),
    RESERVED,
    LEA(Register, u16),
    TRAP(TrapVector),
}

/// One of the eight general-purpose register names.
#[derive(Clone, Copy, Debug, PartialEq, Eq, Structural)]
pub enum Register {
    R0,
    R1,
    R2,
    R3,
    R4,
    R5,
    R6,
    R7,
}

/// The register named by a 3-bit operand field.
pub open spec fn spec_register_from(n: u16) -> Register
    recommends
        n < 8,
{
    if n == 0 {
        Register::R0
    } else if n == 1 {
        Register::R1
    } else if n == 2 {
        Register::R2
    } else if n == 3 {
        Register::R3
    } else if n == 4 {
        Register::R4
    } else if n == 5 {
        Register::R5
    } else if n == 6 {
        Register::R6
    } else {
        Register::R7
    }
}

impl Register {
    /// The slot of the register file this name denotes, between 0 and 7.
    pub open spec fn as_index(self) -> int {
        match self {
            Register::R0 => 0,
            Register::R1 => 1,
            Register::R2 => 2,
            Register::R3 => 3,
            Register::R4 => 4,
            Register::R5 => 5,
            Register::R6 => 6,
            Register::R7 => 7,
        }
    }

    /// The slot of the register file this name denotes, as a machine index.
    pub fn index(self) -> (r: usize)
        ensures
            r == self.as_index(),
    {
        match self {
            Register::R0 => 0,
            Register::R1 => 1,
            Register::R2 => 2,
            Register::R3 => 3,
            Register::R4 => 4,
            Register::R5 => 5,
            Register::R6 => 6,
            Register::R7 => 7,
        }
    }

    pub(crate) fn from(n: u16) -> (r: Register)
        requires
            n < 8,
        ensures
            r == spec_register_from(n),
            r.as_index() == n as int,
    {
        if n == 0 {
            Register::R0
        } else if n == 1 {
            Register::R1
        } else if n == 2 {
            Register::R2
        } else if n == 3 {
            Register::R3
        } else if n == 4 {
            Register::R4
        } else if n == 5 {
            Register::R5
        } else if n == 6 {
            Register::R6
        } else {
            Register::R7
        }
    }
}

/// Every register name denotes a slot between 0 and 7, so the operand
/// registers of every decoded instruction index the register file in bounds.
pub proof fn lemma_register_index_in_range(r: Register)
    ensures
        0 <= r.as_index() < 8,
{
}

/// The selector of a conditional branch: which of the three condition codes
/// the branch tests.
#[derive(Clone, Copy, Debug, PartialEq, Eq, Structural)]
pub struct Condition {
    pub p: bool,
    pub z: bool,
    pub n: bool,
}

/// Field bounds that the decoder relies on: a masked operand field is always
/// small enough to name a register, an offset, or a trap vector.
pub(crate) proof fn lemma_field_bounds()
    by (bit_vector)
    ensures
        forall|x: u16| #[trigger] (x & 0x7) < 8,
        forall|x: u16| #[trigger] (x & 0x1f) < 0x20,
        forall|x: u16| #[trigger] (x & 0x3f) < 0x40,
        forall|x: u16| #[trigger] (x & 0xff) < 0x100,
        forall|x: u16| #[trigger] (x & 0x1ff) < 0x200,
        forall|x: u16| #[trigger] (x & 0x7ff) < 0x800,
        forall|x: u16| #[trigger] (x >> 12) < 16,
        forall|x: u16| #[trigger] ((x >> 9) & 0x7) < 8,
        forall|x: u16| #[trigger] ((x >> 6) & 0x7) < 8,
        forall|x: u16| #[trigger] ((x >> 6) & 7) < 8,
        forall|x: u16| #[trigger] ((x >> 11) & 0x1) <= 1,
        forall|x: u16| #[trigger] ((x >> 10) & 0x1) <= 1,
        forall|x: u16| #[trigger] ((x >> 9) & 0x1) <= 1,
        forall|x: u16| #[trigger] ((x >> 5) & 0x1) <= 1,
        forall|x: u16| #[trigger] ((x >> 11) & 1) <= 1,
        forall|x: u16| #[trigger] ((x >> 5) & 1) <= 1,
{
}

/// The instruction a 16-bit word encodes. The top four bits select the
/// operation; the rest is operand fields. Short immediates are sign-extended
/// here (ADDIMM, ANDIMM, and the LDI offset, as the executable decoder does);
/// other offsets are kept as their raw low bits.
pub open spec fn spec_decode(w: u16) -> Instruction
    recommends
        w >> 12 == 0xf ==> is_known_trap(w & 0xff),
{
    let op = w >> 12;
    if op == 0x00 {
        Instruction::BR(
            Condition { n: (w >> 11) & 0x1 == 1, z: (w >> 10) & 0x1 == 1, p: (w >> 9) & 0x1 == 1 },
            w & 0x1ff,
        )
    } else if op == 0x01 {
        if (w >> 5) & 0x1 == 1 {
            Instruction::ADDIMM(
                spec_register_from((w >> 9) & 0x7),
                spec_register_from((w >> 6) & 0x7),
                sext(w & 0x1f, 5),
            )
        } else {
            Instruction::ADD(
                spec_register_from((w >> 9) & 0x7),
                spec_register_from((w >> 6) & 0x7),
                spec_register_from(w & 0x7),
            )
        }
    } else if op == 0x02 {
        Instruction::LD(spec_register_from((w >> 9) & 0x7), w & 0x1ff)
    } else if op == 0x03 {
        Instruction::ST(spec_register_from((w >> 9) & 0x7), w & 0x1ff)
    } else if op == 0x04 {
        if (w >> 11) & 1 == 1 {
            Instruction::JSR(w & 0x7ff)
        } else {
            Instruction::JSRR(spec_register_from((w >> 6) & 7))
        }
    } else if op == 0x05 {
        if (w >> 5) & 1 == 1 {
            Instruction::ANDIMM(
                sext(w & 0x1f, 5),
                spec_register_from((w >> 9) & 0x7),
                spec_register_from((w >> 6) & 0x7),
            )
        } else {
            Instruction::AND(
                spec_register_from((w >> 9) & 0x7),
                spec_register_from((w >> 6) & 0x7),
                spec_register_from(w & 0x7),
            )
        }
    } else if op == 0x06 {
        Instruction::LDR(
            spec_register_from((w >> 9) & 0x7),
            spec_register_from((w >> 6) & 0x7),
            w & 0x3f,
        )
    } else if op == 0x07 {
        Instruction::STR(
            spec_register_from((w >> 9) & 0x7),
            spec_register_from((w >> 6) & 0x7),
            w & 0x3f,
        )
    } else if op == 0x08 {
        Instruction::UNUSED
    } else if op == 0x09 {
        Instruction::NOT(spec_register_from((w >> 9) & 0x7), spec_register_from((w >> 6) & 0x7))
    } else if op == 0x0a {
        Instruction::LDI(spec_register_from((w >> 9) & 0x7), sext(w & 0x1ff, 9))
    } else if op == 0x0b {
        Instruction::STI(spec_register_from((w >> 9) & 0x7), w & 0x1ff)
    } else if op == 0x0c {
        Instruction::JMP(spec_register_from((w >> 6) & 0x7))
    } else if op == 0x0d {
        Instruction::RESERVED
    } else if op == 0x0e {
        Instruction::LEA(spec_register_from((w >> 9) & 0x7), w & 0x1ff)
    } else {
        Instruction::TRAP(spec_decode_trap(w & 0xff))
    }
}

impl Instruction {
    /// Instructions the executor refuses as fatal: the opcode reserved for
    /// RTI, the unassigned opcode, and the two trap routines this emulator
    /// leaves unimplemented.
    pub open spec fn is_fatal(self) -> bool {
        match self {
            Instruction::UNUSED => true,
            Instruction::RESERVED => true,
            Instruction::TRAP(tv) => tv == TrapVector::IN || tv == TrapVector::PUTSP,
            _ => false,
        }
    }

    /// Decode a 16-bit word. A TRAP word whose vector names no recognized
    /// routine has no decoding (the executable emulator refuses it as a fatal
    /// error before decoding).
    pub fn decode(instruction: u16) -> (r: Self)
        requires
            instruction >> 12 == 0xf ==> is_known_trap(instruction & 0xff),
        ensures
            r == spec_decode(instruction),
    {
        proof {
            lemma_field_bounds();
        }
        let value = instruction >> 12;

        if value == 0x00 {
            let n = ((instruction >> 11) & 0x1) == 1;
            let z = ((instruction >> 10) & 0x1) == 1;
            let p = ((instruction >> 9) & 0x1) == 1;
            let pc_offset = instruction & 0x1ff;

            Instruction::BR(Condition { n, z, p }, pc_offset)
        } else if value == 0x01 {
            let r0 = Register::from((instruction >> 9) & 0x7);
            let r1 = Register::from((instruction >> 6) & 0x7);
            let r2 = Register::from(instruction & 0x7);
            let immediate_flag = ((instruction >> 5) & 0x1) == 0x1;
            let immediate_value = (instruction & 0x1f).sign_extend(5);

            if immediate_flag {
                Instruction::ADDIMM(r0, r1, immediate_value)
            } else {
                Instruction::ADD(r0, r1, r2)
            }
        } else if value == 0x02 {
            let r0 = Register::from((instruction >> 9) & 0x7);
            let pc_offset = instruction & 0x1ff;

            Instruction::LD(r0, pc_offset)
        } else if value == 0x03 {
            let r0 = Register::from((instruction >> 9) & 0x7);
            let pc_offset = instruction & 0x1ff;

            Instruction::ST(r0, pc_offset)
        } else if value == 0x04 {
            let use_pc_offset = ((instruction >> 11) & 1) == 1;
            let r0 = Register::from((instruction >> 6) & 7);
            let pc_offset = instruction & 0x7ff;

            if use_pc_offset {
                Instruction::JSR(pc_offset)
            } else {
                Instruction::JSRR(r0)
            }
        } else if value == 0x05 {
            let immediate_flag = ((instruction >> 5) & 1) == 1;
            let immediate_value = (instruction & 0x1f).sign_extend(5);

            let r0 = Register::from((instruction >> 9) & 0x7);
            let r1 = Register::from((instruction >> 6) & 0x7);
            let r2 = Register::from(instruction & 0x7);

            if immediate_flag {
                Instruction::ANDIMM(immediate_value, r0, r1)
            } else {
                Instruction::AND(r0, r1, r2)
            }
        } else if value == 0x06 {
            let r0 = Register::from((instruction >> 9) & 0x7);
            let r1 = Register::from((instruction >> 6) & 0x7);
            let offset = instruction & 0x3f;

            Instruction::LDR(r0, r1, offset)
        } else if value == 0x07 {
            let sr = Register::from((instruction >> 9) & 0x7);
            let base_r = Register::from((instruction >> 6) & 0x7);
            let offset = instruction & 0x3f;

            Instruction::STR(sr, base_r, offset)
        } else if value == 0x08 {
            Instruction::UNUSED
        } else if value == 0x09 {
            let r0 = Register::from((instruction >> 9) & 0x7);
            let r1 = Register::from((instruction >> 6) & 0x7);

            Instruction::NOT(r0, r1)
        } else if value == 0x0a {
            let dr = Register::from((instruction >> 9) & 0x7);
            let pc_offset = (instruction & 0x1ff).sign_extend(9);

            Instruction::LDI(dr, pc_offset)
        } else if value == 0x0b {
            let r0 = Register::from((instruction >> 9) & 0x7);
            let pc_offset = instruction & 0x1ff;

            Instruction::STI(r0, pc_offset)
        } else if value == 0x0c {
            let r0 = Register::from((instruction >> 6) & 0x7);

            Instruction::JMP(r0)
        } else if value == 0x0d {
            Instruction::RESERVED
        } else if value == 0x0e {
            let r0 = Register::from((instruction >> 9) & 0x7);
            let pc_offset = instruction & 0x1ff;

            Instruction::LEA(r0, pc_offset)
        } else {
            assert(value == 0x0f);
            let trap_vector = TrapVector::decode(instruction);

            Instruction::TRAP(trap_vector)
        }
    }
}

} // verus!
