pub mod instructions;
pub mod memory;
pub mod registers;

use crate::cpu::{execute, step_err, step_rel, ExecError};
use crate::instruction::{Instruction, Register};
use memory::{init_memory, read_post, Memory};
use registers::Registers;
use vstd::prelude::*;

verus! {

/// The condition code: exactly one of negative, zero, positive.
#[derive(Clone, Copy, Debug, PartialEq, Eq, Structural)]
pub enum Condition {
    P,
    Z,
    N,
}

/// The condition code a freshly written register value sets: N when its high
/// bit is one, Z when it is zero, P otherwise.
pub open spec fn flag_of(v: u16) -> Condition {
    if v == 0 {
        Condition::Z
    } else if v >> 15 == 1 {
        Condition::N
    } else {
        Condition::P
    }
}

/// The mathematical content of a machine state: what the contracts speak of.
pub ghost struct MachineView {
    pub mem: Seq<u16>,
    pub regs: Seq<u16>,
    pub pc: u16,
    pub condition: Condition,
    pub running: bool,
    pub debug_continue: bool,
    pub break_address: Option<u16>,
}

impl MachineView {
    /// Well-formedness: one memory cell per address, eight register slots.
    pub open spec fn wf(self) -> bool {
        self.mem.len() == memory::MEM_SIZE && self.regs.len() == 8
    }
}

/// The whole machine: memory, the register file, the program counter, the
/// condition code, the running flag, and the debugger's resume bookkeeping.
pub struct State {
    pub memory: Memory,
    pub registers: Registers,
    pub pc: u16,
    pub condition: Condition,
    pub running: bool,
    pub debug_continue: bool,
    pub break_address: Option<u16>,
}

impl View for State {
    type V = MachineView;

    open spec fn view(&self) -> MachineView {
        MachineView {
            mem: self.memory@,
            regs: self.registers@,
            pc: self.pc,
            condition: self.condition,
            running: self.running,
            debug_continue: self.debug_continue,
            break_address: self.break_address,
        }
    }
}

/// Every state is well formed: memory always holds one cell per 16-bit
/// address and the register file always holds eight slots.
pub broadcast proof fn lemma_state_wf(s: &State)
    ensures
        (#[trigger] s@).wf(),
{
    memory::lemma_memory_size(&s.memory);
    registers::lemma_registers_size(&s.registers);
}

impl State {
    /// A fresh machine: zeroed registers, initial memory, the program counter
    /// at zero, condition code P, running.
    pub fn new() -> (r: Self)
        ensures
            r@.mem == init_memory(),
            r@.regs =~= Seq::new(8, |i: int| 0u16),
            r@.pc == 0,
            r@.condition == Condition::P,
            r@.running,
            !r@.debug_continue,
            r@.break_address is None,
    {
        Self {
            memory: Memory::new(),
            registers: Registers::new(),
            pc: 0x0000,
            condition: Condition::P,
            running: true,
            debug_continue: false,
            break_address: None,
        }
    }

    /// Set the condition code from the value the named register now holds:
    /// N for a set high bit, Z for zero, P otherwise. Nothing else changes.
    pub fn update_flags(&mut self, r: Register)
        ensures
            final(self).condition == flag_of(old(self).registers@[r.as_index()]),
            final(self).memory == old(self).memory,
            final(self).registers == old(self).registers,
            final(self).pc == old(self).pc,
            final(self).running == old(self).running,
            final(self).debug_continue == old(self).debug_continue,
            final(self).break_address == old(self).break_address,
    {
        if self.registers.read(r) == 0 {
            self.condition = Condition::Z;
        } else if (self.registers.read(r) >> 15) == 1 {
            self.condition = Condition::N;
        } else {
            self.condition = Condition::P;
        }
    }

    /// One machine step: fetch the word at the PC (a real memory read, side
    /// effects included), refuse it if it is fatal, otherwise decode and
    /// execute it.
    pub fn step(self) -> (r: Result<State, ExecError>)
        ensures
            match r {
                Ok(s) => step_rel(self@, s@),
                Err(e) => step_err(self@, e),
            },
    {
        let ghost pre = self@;
        let mut s = self;
        let w = s.memory.read(s.pc);
        proof {
            assert(s@ == MachineView { mem: read_post(pre.mem, pre.pc, w), ..pre });
        }

        let op = w >> 12;
        if op == 0x08 || op == 0x0d {
            return Err(ExecError::IllegalOpcode);
        }
        if op == 0x0f {
            let v = w & 0xff;
            if v < 0x20 || v > 0x25 {
                return Err(ExecError::UnknownTrap);
            }
            if v == 0x23 || v == 0x24 {
                return Err(ExecError::UnimplementedTrap);
            }
        }

        let instruction = Instruction::decode(w);
        proof {
            crate::instruction::lemma_field_bounds();
        }
        let stepped = execute(s, instruction);
        Ok(stepped)
    }

    /// A copy of the eight general-purpose registers, in index order.
    pub fn registers(&self) -> (r: [u16; 8])
        ensures
            r@ == self@.regs,
    {
        self.registers.registers()
    }
}

} // verus!
