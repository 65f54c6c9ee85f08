use crate::sign_extend::sext;
use vstd::prelude::*;

verus! {

/// Replicate bit `bit_count - 1` of `value` into bits `bit_count..16`, so
/// that the result denotes the same two's-complement integer in 16 bits.
pub fn sign_extend(value: u16, bit_count: u8) -> (r: u16)
    requires
        1 <= bit_count < 16,
    ensures
        r == sext(value, bit_count as u16),
{
    if ((value >> ((bit_count - 1) as u16)) & 1) == 1 {
        value | (0xffffu16 << (bit_count as u16))
    } else {
        value
    }
}

} // verus!
