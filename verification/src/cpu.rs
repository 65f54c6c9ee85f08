use crate::instruction::{spec_decode, Instruction, Register};
use crate::sign_extend::{sext, SignExtend};
use crate::state::memory::{flush_stdout, get_char, put_byte, read_ok, read_post, MCR};
use crate::state::{flag_of, Condition, MachineView, State};
use crate::trap_vector::{is_known_trap, TrapVector};
use std::io::Write;
use vstd::prelude::*;

verus! {

broadcast use crate::state::memory::lemma_memory_size, crate::state::registers::lemma_registers_size;

/// 16-bit machine addition: wrapping modulo 2^16.
pub open spec fn add16(a: u16, b: u16) -> u16 {
    if a + b > 0xffff {
        (a + b - 0x10000) as u16
    } else {
        (a + b) as u16
    }
}

/// Whether a conditional branch fires: one of the flags it selects equals
/// the current condition code.
pub open spec fn branch_taken(selector: crate::instruction::Condition, cc: Condition) -> bool {
    (selector.n && cc == Condition::N) || (selector.z && cc == Condition::Z) || (selector.p
        && cc == Condition::P)
}

/// A register write that sets the condition code: the destination takes `v`,
/// the condition code follows `v`, the PC is the incremented PC, and nothing
/// else changes.
pub open spec fn cc_write_rel(pre: MachineView, post: MachineView, dr: Register, v: u16) -> bool {
    &&& post.mem == pre.mem
    &&& post.regs == pre.regs.update(dr.as_index(), v)
    &&& post.pc == add16(pre.pc, 1)
    &&& post.condition == flag_of(v)
    &&& post.running == pre.running
}

/// A load: the destination register takes whatever the memory read at
/// `address` returned (a device read may not be determined by memory alone),
/// memory keeps the read's side effect, and the condition code follows the
/// loaded value.
pub open spec fn load_rel(pre: MachineView, post: MachineView, dr: Register, address: u16) -> bool {
    &&& read_ok(pre.mem, address, post.regs[dr.as_index()])
    &&& post.mem == read_post(pre.mem, address, post.regs[dr.as_index()])
    &&& post.regs == pre.regs.update(dr.as_index(), post.regs[dr.as_index()])
    &&& post.pc == add16(pre.pc, 1)
    &&& post.condition == flag_of(post.regs[dr.as_index()])
    &&& post.running == pre.running
}

/// A store: the cell at `address` takes `value`; a store that clears the
/// clock-enable bit of the machine control register stops the machine.
pub open spec fn store_rel(pre: MachineView, post: MachineView, address: u16, value: u16) -> bool {
    &&& post.mem == pre.mem.update(address as int, value)
    &&& post.regs == pre.regs
    &&& post.pc == add16(pre.pc, 1)
    &&& post.condition == pre.condition
    &&& post.running == (pre.running && !(address == MCR && (value >> 15) & 1 == 0))
}

/// What a trap leaves behind. Traps do not touch R7 here: the emulator
/// performs the routines itself instead of dispatching through the trap
/// vector table. GETC fills R0 from the keyboard, so only its range is known;
/// HALT stops the machine; the printing traps leave the whole state alone.
pub open spec fn trap_rel(pre: MachineView, tv: TrapVector, post: MachineView) -> bool {
    &&& post.mem == pre.mem
    &&& post.pc == add16(pre.pc, 1)
    &&& post.condition == pre.condition
    &&& match tv {
        TrapVector::GETC => {
            &&& post.regs == pre.regs.update(0, post.regs[0])
            &&& post.regs[0] < 256
            &&& post.running == pre.running
        },
        TrapVector::OUT => post.regs == pre.regs && post.running == pre.running,
        TrapVector::PUTS => post.regs == pre.regs && post.running == pre.running,
        TrapVector::IN => false,
        TrapVector::PUTSP => false,
        TrapVector::HALT => post.regs == pre.regs && !post.running,
    }
}

/// The machine-step relation of one instruction: how `execute` may take the
/// state `pre` to the state `post`. The PC is advanced by one, wrapping,
/// before any operand semantics; PC-relative offsets are measured from that
/// incremented PC. The debugger bookkeeping fields never change here.
pub open spec fn exec_rel(pre: MachineView, inst: Instruction, post: MachineView) -> bool {
    let pc1 = add16(pre.pc, 1);
    &&& post.debug_continue == pre.debug_continue
    &&& post.break_address == pre.break_address
    &&& match inst {
        Instruction::BR(selector, pc_offset) => {
            &&& post.mem == pre.mem
            &&& post.regs == pre.regs
            &&& post.condition == pre.condition
            &&& post.running == pre.running
            &&& post.pc == (if branch_taken(selector, pre.condition) {
                add16(pc1, sext(pc_offset, 9))
            } else {
                pc1
            })
        },
        Instruction::ADD(dr, sr1, sr2) => cc_write_rel(
            pre,
            post,
            dr,
            add16(pre.regs[sr1.as_index()], pre.regs[sr2.as_index()]),
        ),
        Instruction::ADDIMM(dr, sr1, imm) => cc_write_rel(
            pre,
            post,
            dr,
            add16(pre.regs[sr1.as_index()], sext(imm, 5)),
        ),
        Instruction::LD(dr, pc_offset) => load_rel(pre, post, dr, add16(pc1, sext(pc_offset, 9))),
        Instruction::ST(sr, pc_offset) => store_rel(
            pre,
            post,
            add16(pc1, sext(pc_offset, 9)),
            pre.regs[sr.as_index()],
        ),
        Instruction::JSR(pc_offset) => {
            &&& post.mem == pre.mem
            &&& post.condition == pre.condition
            &&& post.running == pre.running
            &&& post.pc == add16(pc1, sext(pc_offset, 11))
            &&& post.regs == pre.regs.update(7, pc1)
        },
        Instruction::JSRR(base) => {
            &&& post.mem == pre.mem
            &&& post.condition == pre.condition
            &&& post.running == pre.running
            &&& post.pc == pre.regs[base.as_index()]
            &&& post.regs == pre.regs.update(7, pc1)
        },
        Instruction::AND(dr, sr1, sr2) => cc_write_rel(
            pre,
            post,
            dr,
            pre.regs[sr1.as_index()] & pre.regs[sr2.as_index()],
        ),
        Instruction::ANDIMM(imm, dr, sr1) => cc_write_rel(
            pre,
            post,
            dr,
            pre.regs[sr1.as_index()] & sext(imm, 5),
        ),
        Instruction::LDR(dr, base, offset) => load_rel(
            pre,
            post,
            dr,
            add16(pre.regs[base.as_index()], sext(offset, 6)),
        ),
        Instruction::STR(sr, base, offset) => store_rel(
            pre,
            post,
            add16(pre.regs[base.as_index()], sext(offset, 6)),
            pre.regs[sr.as_index()],
        ),
        Instruction::UNUSED => false,
        Instruction::NOT(dr, sr) => cc_write_rel(pre, post, dr, !pre.regs[sr.as_index()]),
        Instruction::LDI(dr, pc_offset) => exists|a: u16|
            {
                let mem1 = read_post(pre.mem, add16(pc1, sext(pc_offset, 9)), a);
                &&& #[trigger] read_ok(pre.mem, add16(pc1, sext(pc_offset, 9)), a)
                &&& load_rel(MachineView { mem: mem1, ..pre }, post, dr, a)
            },
        Instruction::STI(sr, pc_offset) => exists|a: u16|
            {
                let mem1 = read_post(pre.mem, add16(pc1, sext(pc_offset, 9)), a);
                &&& #[trigger] read_ok(pre.mem, add16(pc1, sext(pc_offset, 9)), a)
                &&& store_rel(MachineView { mem: mem1, ..pre }, post, a, pre.regs[sr.as_index()])
            },
        Instruction::JMP(base) => {
            &&& post.mem == pre.mem
            &&& post.regs == pre.regs
            &&& post.condition == pre.condition
            &&& post.running == pre.running
            &&& post.pc == pre.regs[base.as_index()]
        },
        Instruction::RESERVED => false,
        Instruction::LEA(dr, pc_offset) => cc_write_rel(pre, post, dr, add16(pc1, sext(pc_offset, 9))),
        Instruction::TRAP(tv) => trap_rel(pre, tv, post),
    }
}

/// One instruction, applied to the machine. The PC is advanced by one,
/// wrapping, before the operand semantics; the relation `exec_rel` states
/// what each operation does. Fatal instructions (RTI, the reserved opcode,
/// and the unimplemented IN and PUTSP traps) are refused up front by the
/// caller.
pub fn execute(state: State, instruction: Instruction) -> (r: State)
    requires
        !instruction.is_fatal(),
    ensures
        exec_rel(state@, instruction, r@),
{
    let mut state = state;
    state.pc = state.pc.wrapping_add(1);

    match instruction {
        // If any selected flag matches the current condition code, branch to
        // the incremented PC plus the sign-extended 9-bit offset.
        Instruction::BR(condition, pc_offset) => {
            if (condition.n && state.condition == Condition::N) || (condition.z && state.condition
                == Condition::Z) || (condition.p && state.condition == Condition::P) {
                state.pc = state.pc.wrapping_add(pc_offset.sign_extend(9));
            }
        },
        // DR <- SR1 + SR2, wrapping; the condition code follows the result.
        Instruction::ADD(r0, r1, r2) => {
            let value = state.registers.read(r1).wrapping_add(state.registers.read(r2));

            state.registers.write(r0, value);
            state.update_flags(r0);
        },
        // DR <- SR1 + sext(imm5), wrapping; the condition code follows.
        Instruction::ADDIMM(r0, r1, immediate_value) => {
            let value = state.registers.read(r1).wrapping_add(immediate_value.sign_extend(5));

            state.registers.write(r0, value);
            state.update_flags(r0);
        },
        // DR <- mem[PC + sext(off9)]; the condition code follows.
        Instruction::LD(r0, pc_offset) => {
            let address = state.pc.wrapping_add(pc_offset.sign_extend(9));
            let value = state.memory.read(address);

            state.registers.write(r0, value);
            state.update_flags(r0);
        },
        // mem[PC + sext(off9)] <- SR.
        Instruction::ST(r0, pc_offset) => {
            let address = state.pc.wrapping_add(pc_offset.sign_extend(9));
            let value = state.registers.read(r0);

            state.memory.write(address, value);
            if address == MCR && (value >> 15) & 1 == 0 {
                state.running = false;
            }
        },
        // R7 <- incremented PC; PC <- incremented PC + sext(off11).
        Instruction::JSR(pc_offset) => {
            let temp = state.pc;
            state.pc = state.pc.wrapping_add(pc_offset.sign_extend(11));
            state.registers.write(Register::R7, temp);
        },
        // R7 <- incremented PC; PC <- BaseR.
        Instruction::JSRR(r0) => {
            let temp = state.pc;
            state.pc = state.registers.read(r0);
            state.registers.write(Register::R7, temp);
        },
        // DR <- SR1 & SR2; the condition code follows the result.
        Instruction::AND(r0, r1, r2) => {
            let value = state.registers.read(r1) & state.registers.read(r2);
            state.registers.write(r0, value);
            state.update_flags(r0);
        },
        // DR <- SR1 & sext(imm5); the condition code follows.
        Instruction::ANDIMM(immediate_value, r0, r1) => {
            let value = state.registers.read(r1) & immediate_value.sign_extend(5);
            state.registers.write(r0, value);
            state.update_flags(r0);
        },
        // DR <- mem[BaseR + sext(off6)]; the condition code follows.
        Instruction::LDR(r0, r1, offset) => {
            let address = state.registers.read(r1).wrapping_add(offset.sign_extend(6));
            let value = state.memory.read(address);

            state.registers.write(r0, value);
            state.update_flags(r0);
        },
        // mem[BaseR + sext(off6)] <- SR.
        Instruction::STR(sr, base_r, offset) => {
            let address = state.registers.read(base_r).wrapping_add(offset.sign_extend(6));
            let value = state.registers.read(sr);

            state.memory.write(address, value);
            if address == MCR && (value >> 15) & 1 == 0 {
                state.running = false;
            }
        },
        Instruction::UNUSED => {
            proof {
                assert(false);
            }
        },
        // DR <- !SR; the condition code follows the result.
        Instruction::NOT(r0, r1) => {
            let complement = !state.registers.read(r1);
            state.registers.write(r0, complement);
            state.update_flags(r0);
        },
        // DR <- mem[mem[PC + sext(off9)]]; the condition code follows.
        Instruction::LDI(dr, pc_offset) => {
            let address = state.memory.read(state.pc.wrapping_add(pc_offset.sign_extend(9)));
            let value = state.memory.read(address);

            state.registers.write(dr, value);
            state.update_flags(dr);
        },
        // mem[mem[PC + sext(off9)]] <- SR.
        Instruction::STI(r0, pc_offset) => {
            let address = state.pc.wrapping_add(pc_offset.sign_extend(9));
            let address = state.memory.read(address);
            let value = state.registers.read(r0);

            state.memory.write(address, value);
            if address == MCR && (value >> 15) & 1 == 0 {
                state.running = false;
            }
        },
        // PC <- BaseR. RET is JMP with BaseR = R7.
        Instruction::JMP(r0) => {
            state.pc = state.registers.read(r0);
        },
        Instruction::RESERVED => {
            proof {
                assert(false);
            }
        },
        // DR <- PC + sext(off9), without reading memory; the condition code
        // follows the loaded address.
        Instruction::LEA(r0, pc_offset) => {
            let value = state.pc.wrapping_add(pc_offset.sign_extend(9));
            state.registers.write(r0, value);
            state.update_flags(r0);
        },
        Instruction::TRAP(trap_vector) => {
            match trap_vector {
                // Read one character from the keyboard into R0, zero-extended
                // and not echoed.
                TrapVector::GETC => {
                    let c = get_char();
                    state.registers.write(Register::R0, c);
                },
                // Write the low byte of R0 to the display.
                TrapVector::OUT => {
                    let value = state.registers.read(Register::R0);
                    put_byte((value % 256) as u8);
                    flush_stdout();
                },
                // Print the low byte of each word from address R0 up to the
                // first zero word (or the end of memory).
                TrapVector::PUTS => {
                    let mut i: u16 = state.registers.read(Register::R0);

                    while state.memory.get(i) != 0 && i < 0xffff
                        decreases 0xffff - i,
                    {
                        put_byte((state.memory.get(i) % 256) as u8);
                        i = i + 1;
                    }

                    flush_stdout();
                },
                TrapVector::IN => {
                    proof {
                        assert(false);
                    }
                },
                TrapVector::PUTSP => {
                    proof {
                        assert(false);
                    }
                },
                // Announce the halt and stop the machine.
                TrapVector::HALT => {
                    print_halt_message();
                    state.running = false;
                },
            }
        },
    }

    state
}

/// Relies on std::io::Write::write_all on standard output: prints the halt
/// notice. Output is not modeled, so nothing is promised of it.
#[verifier::external_body]
fn print_halt_message() {
    let _ = writeln!(std::io::stdout(), "HALT");
}

/// How a machine step may fail: the two illegal opcodes (the RTI slot and
/// the reserved slot), a TRAP whose vector names no routine, and a TRAP
/// naming a routine this emulator leaves unimplemented (IN, PUTSP).
#[derive(Clone, Copy, Debug, PartialEq, Eq, Structural)]
pub enum ExecError {
    IllegalOpcode,
    UnknownTrap,
    UnimplementedTrap,
}

/// The fatal class a fetched word falls into, if any.
pub open spec fn word_error(w: u16) -> Option<ExecError> {
    let op = w >> 12;
    if op == 0x08 || op == 0x0d {
        Some(ExecError::IllegalOpcode)
    } else if op == 0x0f && !is_known_trap(w & 0xff) {
        Some(ExecError::UnknownTrap)
    } else if op == 0x0f && ((w & 0xff) == 0x23 || (w & 0xff) == 0x24) {
        Some(ExecError::UnimplementedTrap)
    } else {
        None
    }
}

/// One whole machine step: some word `w` is fetched at the PC (a fetch is a
/// real memory read, side effects included), it is not fatal, and the
/// machine executes its decoding.
pub open spec fn step_rel(pre: MachineView, post: MachineView) -> bool {
    exists|w: u16|
        {
            &&& #[trigger] read_ok(pre.mem, pre.pc, w)
            &&& word_error(w) is None
            &&& exec_rel(
                MachineView { mem: read_post(pre.mem, pre.pc, w), ..pre },
                spec_decode(w),
                post,
            )
        }
}

/// A machine step that stops with a fatal error: the word fetched at the PC
/// falls into the error class returned.
pub open spec fn step_err(pre: MachineView, e: ExecError) -> bool {
    exists|w: u16| #[trigger] read_ok(pre.mem, pre.pc, w) && word_error(w) == Some(e)
}

/// The destination register of an instruction that sets the condition code,
/// if it is one: the arithmetic and logic operations and every load.
pub open spec fn cc_destination(inst: Instruction) -> Option<Register> {
    match inst {
        Instruction::ADD(dr, _, _) => Some(dr),
        Instruction::ADDIMM(dr, _, _) => Some(dr),
        Instruction::AND(dr, _, _) => Some(dr),
        Instruction::ANDIMM(_, dr, _) => Some(dr),
        Instruction::NOT(dr, _) => Some(dr),
        Instruction::LD(dr, _) => Some(dr),
        Instruction::LDI(dr, _) => Some(dr),
        Instruction::LDR(dr, _, _) => Some(dr),
        Instruction::LEA(dr, _) => Some(dr),
        _ => None,
    }
}

/// The condition-code discipline: after any instruction that sets the
/// condition code, the code is N exactly when the destination register's
/// high bit is one, Z exactly when that register is zero, and P otherwise.
pub proof fn lemma_condition_discipline(
    pre: MachineView,
    inst: Instruction,
    post: MachineView,
    dr: Register,
)
    requires
        pre.wf(),
        exec_rel(pre, inst, post),
        cc_destination(inst) == Some(dr),
    ensures
        post.condition == Condition::N <==> post.regs[dr.as_index()] >> 15 == 1,
        post.condition == Condition::Z <==> post.regs[dr.as_index()] == 0,
        post.condition == Condition::P <==> (post.regs[dr.as_index()] != 0 && post.regs[
            dr.as_index()
        ] >> 15 != 1),
{
    assert(0u16 >> 15 == 0) by (bit_vector);
}

/// Whether an instruction may load the PC with something other than the
/// incremented PC: the branch and the three jumps.
pub open spec fn is_jump(inst: Instruction) -> bool {
    match inst {
        Instruction::BR(_, _) => true,
        Instruction::JMP(_) => true,
        Instruction::JSR(_) => true,
        Instruction::JSRR(_) => true,
        _ => false,
    }
}

/// The PC advances by exactly one, wrapping, before any operand semantics:
/// every instruction that is not a branch or jump leaves the PC at the
/// incremented PC and nothing else moves it.
pub proof fn lemma_pc_advances(pre: MachineView, inst: Instruction, post: MachineView)
    requires
        exec_rel(pre, inst, post),
        !is_jump(inst),
    ensures
        post.pc == add16(pre.pc, 1),
{
}

/// PC-relative addressing is measured from the incremented PC: a branch
/// lands on the incremented PC plus its offset exactly when taken, JSR both
/// jumps relative to the incremented PC and links it into R7, and LEA loads
/// the incremented PC plus its offset.
pub proof fn lemma_pc_relative_base(pre: MachineView, inst: Instruction, post: MachineView)
    requires
        pre.wf(),
        exec_rel(pre, inst, post),
    ensures
        inst matches Instruction::LEA(dr, off) ==> post.regs[dr.as_index()] == add16(
            add16(pre.pc, 1),
            sext(off, 9),
        ),
        inst matches Instruction::BR(selector, off) ==> post.pc == (
        if branch_taken(selector, pre.condition) {
            add16(add16(pre.pc, 1), sext(off, 9))
        } else {
            add16(pre.pc, 1)
        }),
        inst matches Instruction::JSR(off) ==> post.pc == add16(add16(pre.pc, 1), sext(off, 11))
            && post.regs == pre.regs.update(7, add16(pre.pc, 1)),
{
}

/// Execution preserves well-formedness: from a well-formed state, every
/// instruction yields a state that still has one memory cell per 16-bit
/// address and eight register slots (and, by type, a condition code that is
/// one of N, Z, P and register operands indexing 0..7).
pub proof fn lemma_execute_preserves_wf(pre: MachineView, inst: Instruction, post: MachineView)
    requires
        pre.wf(),
        exec_rel(pre, inst, post),
    ensures
        post.wf(),
{
}

/// A whole fetch-decode-execute step preserves well-formedness as well.
pub proof fn lemma_step_preserves_wf(pre: MachineView, post: MachineView)
    requires
        pre.wf(),
        step_rel(pre, post),
    ensures
        post.wf(),
{
    let w = choose|w: u16|
        {
            &&& #[trigger] read_ok(pre.mem, pre.pc, w)
            &&& word_error(w) is None
            &&& exec_rel(
                MachineView { mem: read_post(pre.mem, pre.pc, w), ..pre },
                spec_decode(w),
                post,
            )
        };
    let mid = MachineView { mem: read_post(pre.mem, pre.pc, w), ..pre };
    lemma_execute_preserves_wf(mid, spec_decode(w), post);
}

} // verus!
