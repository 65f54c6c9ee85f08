use vstd::prelude::*;

verus! {

/// `v` sign-extended from its low `k` bits to a full 16-bit word: if bit
/// `k - 1` is set, bits `k..16` are filled with ones, otherwise they are left
/// as they are.
pub open spec fn sext(v: u16, k: u16) -> u16
    recommends
        1 <= k < 16,
{
    if (v >> ((k - 1) as u16)) & 1 == 1 {
        v | (0xffffu16 << k)
    } else {
        v
    }
}

/// Widening of a narrow two's-complement value to 16 bits.
pub trait SignExtend: Sized {
    spec fn spec_sign_extend(self, bit_count: u16) -> u16;

    /// Replicate bit `bit_count - 1` into bits `bit_count..16`.
    fn sign_extend(self, bit_count: u8) -> (r: u16)
        requires
            1 <= bit_count < 16,
        ensures
            r == self.spec_sign_extend(bit_count as u16),
    ;
}

impl SignExtend for u16 {
    open spec fn spec_sign_extend(self, bit_count: u16) -> u16 {
        sext(self, bit_count)
    }

    fn sign_extend(self, bit_count: u8) -> (r: u16) {
        if ((self >> ((bit_count - 1) as u16)) & 1) == 1 {
            self | (0xffffu16 << (bit_count as u16))
        } else {
            self
        }
    }
}

/// The integer a 16-bit word denotes under two's complement.
pub open spec fn as_signed16(w: u16) -> int {
    if w < 0x8000 {
        w as int
    } else {
        w - 0x10000
    }
}

/// The integer the low `k` bits of `v` denote under `k`-bit two's complement.
pub open spec fn as_signed(v: u16, k: u16) -> int
    recommends
        1 <= k < 16,
        v < (1u16 << k),
{
    if v < (1u16 << ((k - 1) as u16)) {
        v as int
    } else {
        v - (1u16 << k)
    }
}

/// Sign extension preserves the denoted integer: the extended word, read as a
/// 16-bit two's-complement value, equals the argument read as a `k`-bit
/// two's-complement value.
pub proof fn lemma_sign_extend_value(v: u16, k: u16)
    requires
        1 <= k < 16,
        v < (1u16 << k),
    ensures
        as_signed16(sext(v, k)) == as_signed(v, k),
{
    if (v >> ((k - 1) as u16)) & 1 == 1 {
        assert((1u16 << ((k - 1) as u16)) <= v < (1u16 << k)
            && (v | (0xffffu16 << k)) == v + 0x10000 - (1u16 << k)
            && (1u16 << k) <= 0x8000) by (bit_vector)
            requires
                (v >> ((k - 1) as u16)) & 1 == 1 && v < (1u16 << k) && 1 <= k < 16,
        ;
    } else {
        assert(v < (1u16 << ((k - 1) as u16)) && (1u16 << ((k - 1) as u16)) <= 0x4000)
            by (bit_vector)
            requires
                (v >> ((k - 1) as u16)) & 1 != 1 && v < (1u16 << k) && 1 <= k < 16,
        ;
    }
}

} // verus!
