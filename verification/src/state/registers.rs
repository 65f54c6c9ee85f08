use crate::instruction::Register;
use vstd::prelude::*;

verus! {

broadcast use vstd::array::group_array_axioms;

/// The register file: exactly eight 16-bit slots, R0 through R7.
pub struct Registers {
    registers: [u16; 8],
}

impl View for Registers {
    type V = Seq<u16>;

    closed spec fn view(&self) -> Seq<u16> {
        self.registers@
    }
}

/// Every register file holds exactly eight slots.
pub broadcast proof fn lemma_registers_size(r: &Registers)
    ensures
        (#[trigger] r@).len() == 8,
{
}

impl Registers {
    /// A fresh register file, every slot zero.
    pub fn new() -> (r: Self)
        ensures
            r@ =~= Seq::new(8, |i: int| 0u16),
            r@.len() == 8,
    {
        Self { registers: [0; 8] }
    }

    /// The value held by the named register.
    pub fn read(&self, register: Register) -> (r: u16)
        ensures
            r == self@[register.as_index()],
    {
        self.registers[register.index()]
    }

    /// Store a value into the named register; the other slots keep theirs.
    pub fn write(&mut self, register: Register, value: u16)
        ensures
            final(self)@ =~= old(self)@.update(register.as_index(), value),
    {
        self.registers[register.index()] = value;
    }

    /// A copy of all eight slots, in index order.
    pub fn registers(&self) -> (r: [u16; 8])
        ensures
            r@ == self@,
    {
        self.registers
    }
}

} // verus!
