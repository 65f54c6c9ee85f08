use vstd::prelude::*;

verus! {

/// The service routines reachable through the TRAP instruction.
#[derive(Clone, Copy, Debug, PartialEq, Eq, Structural)]
pub enum TrapVector {
    GETC,
    OUT,
    PUTS,
    IN,
    PUTSP,
    HALT,
}

/// Whether a trap vector (the low byte of a TRAP word, zero-extended) names a
/// recognized service routine. Only 0x20 through 0x25 do.
pub open spec fn is_known_trap(vector: u16) -> bool {
    0x20 <= vector <= 0x25
}

/// The routine a recognized trap vector names.
pub open spec fn spec_decode_trap(vector: u16) -> TrapVector
    recommends
        is_known_trap(vector),
{
    if vector == 0x20 {
        TrapVector::GETC
    } else if vector == 0x21 {
        TrapVector::OUT
    } else if vector == 0x22 {
        TrapVector::PUTS
    } else if vector == 0x23 {
        TrapVector::IN
    } else if vector == 0x24 {
        TrapVector::PUTSP
    } else {
        TrapVector::HALT
    }
}

impl TrapVector {
    /// Decode the trap vector held in the low byte of a TRAP word.
    /// Unrecognized vectors are a fatal error and are refused up front.
    pub fn decode(instruction: u16) -> (r: TrapVector)
        requires
            is_known_trap(instruction & 0xff),
        ensures
            r == spec_decode_trap(instruction & 0xff),
    {
        let value = instruction & 0xff;
        if value == 0x20 {
            TrapVector::GETC
        } else if value == 0x21 {
            TrapVector::OUT
        } else if value == 0x22 {
            TrapVector::PUTS
        } else if value == 0x23 {
            TrapVector::IN
        } else if value == 0x24 {
            TrapVector::PUTSP
        } else {
            assert(value == 0x25);
            TrapVector::HALT
        }
    }
}

} // verus!
