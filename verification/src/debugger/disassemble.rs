use crate::opcode::{spec_from_instruction, Opcode};
use crate::text::{bool_chars, dec_chars, hex_chars, push_bool, push_dec, push_hex};
use crate::trap_vector::{is_known_trap, TrapVector};
use vstd::prelude::*;
use vstd::string::StringExecFns;

verus! {

broadcast use vstd::seq_lib::group_seq_lib_default;

/// The name of a trap routine, as text.
pub open spec fn trap_name(tv: TrapVector) -> Seq<char> {
    match tv {
        TrapVector::GETC => "GETC"@,
        TrapVector::OUT => "OUT"@,
        TrapVector::PUTS => "PUTS"@,
        TrapVector::IN => "IN"@,
        TrapVector::PUTSP => "PUTSP"@,
        TrapVector::HALT => "HALT"@,
    }
}

/// The disassembly of a word: the operand fields of its operation, spelled
/// out one by one. The two illegal opcodes and a TRAP with an unrecognized
/// vector disassemble to a note rather than to fields.
pub open spec fn disassemble_chars(w: u16) -> Seq<char> {
    let op = w >> 12;
    if op == 0x0f && !is_known_trap(w & 0xff) {
        "Unknown trap vector"@
    } else if op == 0x00 {
        "n: "@ + dec_chars(((w >> 11) & 0x1) as nat, 1) + ", z: "@ + dec_chars(
            ((w >> 10) & 0x1) as nat,
            1,
        ) + ", p: "@ + dec_chars(((w >> 9) & 0x1) as nat, 1)
    } else if op == 0x01 {
        "r0: "@ + dec_chars(((w >> 9) & 0x7) as nat, 1) + ", r1: "@ + dec_chars(
            ((w >> 6) & 0x7) as nat,
            1,
        ) + ", immediate_flag: "@ + bool_chars((w >> 5) & 0x1 == 0x1)
    } else if op == 0x02 || op == 0x03 {
        "r0: "@ + dec_chars(((w >> 9) & 0x7) as nat, 1) + ", pc_offset: "@ + dec_chars(
            (w & 0x1ff) as nat,
            1,
        )
    } else if op == 0x04 {
        if (w >> 11) & 1 == 1 {
            "pc_offset: "@ + dec_chars((w & 0x7ff) as nat, 1)
        } else {
            "(JSRR), r0: "@ + dec_chars(((w >> 6) & 7) as nat, 1)
        }
    } else if op == 0x05 {
        "immediate_flag: "@ + bool_chars((w >> 5) & 1 == 1) + ", immediate_value: "@ + dec_chars(
            crate::sign_extend::sext(w & 0x1f, 5) as nat,
            1,
        ) + ", r0: "@ + dec_chars(((w >> 9) & 0x7) as nat, 1) + ", r1: "@ + dec_chars(
            ((w >> 6) & 0x7) as nat,
            1,
        ) + ", r2: "@ + dec_chars((w & 0x7) as nat, 1)
    } else if op == 0x06 {
        "r0: "@ + dec_chars(((w >> 9) & 0x7) as nat, 1) + ", r1: "@ + dec_chars(
            ((w >> 6) & 0x7) as nat,
            1,
        ) + ", offset: "@ + dec_chars((w & 0x3f) as nat, 1)
    } else if op == 0x07 {
        "sr: 0x"@ + hex_chars(((w >> 9) & 0x7) as nat, 2) + ", base_r: 0x"@ + hex_chars(
            ((w >> 6) & 0x7) as nat,
            2,
        ) + ", offset: 0x"@ + hex_chars((w & 0x3f) as nat, 2)
    } else if op == 0x08 {
        "unused"@
    } else if op == 0x09 {
        "r0: "@ + dec_chars(((w >> 9) & 0x7) as nat, 1) + ", r1: "@ + dec_chars(
            ((w >> 6) & 0x7) as nat,
            1,
        )
    } else if op == 0x0a {
        "dr: "@ + dec_chars(((w >> 9) & 0x7) as nat, 1) + ", pc_offset: "@ + dec_chars(
            crate::sign_extend::sext(w & 0x1ff, 9) as nat,
            1,
        )
    } else if op == 0x0b {
        "r0: "@ + dec_chars(((w >> 9) & 0x7) as nat, 1) + ", pc_offset: "@ + dec_chars(
            (w & 0x1ff) as nat,
            1,
        )
    } else if op == 0x0c {
        "r0: "@ + dec_chars(((w >> 6) & 0x7) as nat, 1)
    } else if op == 0x0d {
        "reserved"@
    } else if op == 0x0e {
        "r0: "@ + dec_chars(((w >> 9) & 0x7) as nat, 1) + ", pc_offset: "@ + dec_chars(
            (w & 0x1ff) as nat,
            1,
        )
    } else {
        "trap_vector: "@ + trap_name(crate::trap_vector::spec_decode_trap(w & 0xff))
    }
}

/// Spell out the operand fields of the word's operation, for the debugger's
/// disassemble command.
pub fn disassemble(instruction: u16) -> (r: String)
    ensures
        r@ == disassemble_chars(instruction),
{
    proof {
        crate::instruction::lemma_field_bounds();
    }

    let mut s = String::new();

    if (instruction >> 12) == 0x0f {
        let v = instruction & 0xff;
        if v < 0x20 || v > 0x25 {
            s.append("Unknown trap vector");
            return s;
        }
    }

    match Opcode::from_instruction(instruction) {
        Opcode::BR(_, _, _) => {
            s.append("n: ");
            push_dec(&mut s, (instruction >> 11) & 0x1, 1);
            s.append(", z: ");
            push_dec(&mut s, (instruction >> 10) & 0x1, 1);
            s.append(", p: ");
            push_dec(&mut s, (instruction >> 9) & 0x1, 1);
        },
        Opcode::ADD(r0, r1, immediate_flag) => {
            s.append("r0: ");
            push_dec(&mut s, r0, 1);
            s.append(", r1: ");
            push_dec(&mut s, r1, 1);
            s.append(", immediate_flag: ");
            push_bool(&mut s, immediate_flag);
        },
        Opcode::LD(r0, pc_offset) => {
            s.append("r0: ");
            push_dec(&mut s, r0, 1);
            s.append(", pc_offset: ");
            push_dec(&mut s, pc_offset, 1);
        },
        Opcode::ST(r0, pc_offset) => {
            s.append("r0: ");
            push_dec(&mut s, r0, 1);
            s.append(", pc_offset: ");
            push_dec(&mut s, pc_offset, 1);
        },
        Opcode::JSR(use_pc_offset, pc_offset, r0) => {
            if use_pc_offset {
                s.append("pc_offset: ");
                push_dec(&mut s, pc_offset, 1);
            } else {
                s.append("(JSRR), r0: ");
                push_dec(&mut s, r0, 1);
            }
        },
        Opcode::AND(immediate_flag, immediate_value, r0, r1, r2) => {
            s.append("immediate_flag: ");
            push_bool(&mut s, immediate_flag);
            s.append(", immediate_value: ");
            push_dec(&mut s, immediate_value, 1);
            s.append(", r0: ");
            push_dec(&mut s, r0, 1);
            s.append(", r1: ");
            push_dec(&mut s, r1, 1);
            s.append(", r2: ");
            push_dec(&mut s, r2, 1);
        },
        Opcode::LDR(r0, r1, offset) => {
            s.append("r0: ");
            push_dec(&mut s, r0, 1);
            s.append(", r1: ");
            push_dec(&mut s, r1, 1);
            s.append(", offset: ");
            push_dec(&mut s, offset, 1);
        },
        Opcode::STR(sr, base_r, offset) => {
            s.append("sr: 0x");
            push_hex(&mut s, sr, 2);
            s.append(", base_r: 0x");
            push_hex(&mut s, base_r, 2);
            s.append(", offset: 0x");
            push_hex(&mut s, offset, 2);
        },
        Opcode::UNUSED => {
            s.append("unused");
        },
        Opcode::NOT(r0, r1) => {
            s.append("r0: ");
            push_dec(&mut s, r0, 1);
            s.append(", r1: ");
            push_dec(&mut s, r1, 1);
        },
        Opcode::LDI(dr, pc_offset) => {
            s.append("dr: ");
            push_dec(&mut s, dr, 1);
            s.append(", pc_offset: ");
            push_dec(&mut s, pc_offset, 1);
        },
        Opcode::STI(r0, pc_offset) => {
            s.append("r0: ");
            push_dec(&mut s, r0, 1);
            s.append(", pc_offset: ");
            push_dec(&mut s, pc_offset, 1);
        },
        Opcode::JMP(r0) => {
            s.append("r0: ");
            push_dec(&mut s, r0, 1);
        },
        Opcode::RESERVED => {
            s.append("reserved");
        },
        Opcode::LEA(r0, pc_offset) => {
            s.append("r0: ");
            push_dec(&mut s, r0, 1);
            s.append(", pc_offset: ");
            push_dec(&mut s, pc_offset, 1);
        },
        Opcode::TRAP(trap_vector) => {
            s.append("trap_vector: ");
            match trap_vector {
                TrapVector::GETC => s.append("GETC"),
                TrapVector::OUT => s.append("OUT"),
                TrapVector::PUTS => s.append("PUTS"),
                TrapVector::IN => s.append("IN"),
                TrapVector::PUTSP => s.append("PUTSP"),
                TrapVector::HALT => s.append("HALT"),
            }
        },
    }

    s
}

} // verus!
