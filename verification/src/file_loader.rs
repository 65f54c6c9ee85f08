use crate::cpu::add16;
use crate::file::{from_bytes, words_of, ImageError};
use crate::state::State;
use vstd::prelude::*;

verus! {

/// The memory after storing `words` one after another from `origin` on,
/// wrapping at the top of the address space.
pub open spec fn stored(mem: Seq<u16>, origin: u16, words: Seq<u16>) -> Seq<u16>
    decreases words.len(),
{
    if words.len() == 0 {
        mem
    } else {
        stored(
            mem.update(origin as int, words[0]),
            add16(origin, 1),
            words.subrange(1, words.len() as int),
        )
    }
}

/// Load a program image into a machine. The stream must spell 16-bit
/// big-endian words; the first word is the load address, which also becomes
/// the program counter; the following words fill memory from there,
/// consecutively. Registers, the condition code, and the running flag are
/// untouched.
pub fn load_image(state: State, data: &[u8]) -> (r: Result<State, ImageError>)
    ensures
        match r {
            Ok(s) => {
                &&& data@.len() % 2 == 0
                &&& data@.len() >= 2
                &&& s@.pc == words_of(data@)[0]
                &&& s@.mem == stored(
                    state@.mem,
                    words_of(data@)[0],
                    words_of(data@).subrange(1, words_of(data@).len() as int),
                )
                &&& s@.regs == state@.regs
                &&& s@.condition == state@.condition
                &&& s@.running == state@.running
                &&& s@.debug_continue == state@.debug_continue
                &&& s@.break_address == state@.break_address
            },
            Err(ImageError::OddLength) => data@.len() % 2 != 0,
            Err(ImageError::Empty) => data@.len() % 2 == 0 && data@.len() == 0,
        },
{
    let words = match from_bytes(data) {
        Ok(words) => words,
        Err(e) => {
            return Err(e);
        },
    };
    if words.len() == 0 {
        return Err(ImageError::Empty);
    }

    let ghost mem0 = state@.mem;
    let ghost all = words@.subrange(1, words@.len() as int);
    let origin = words[0];

    let mut s = state;
    s.pc = origin;

    let mut address: u16 = origin;
    let mut i: usize = 1;
    while i < words.len()
        invariant
            1 <= i <= words@.len(),
            s@.regs == state@.regs,
            s@.condition == state@.condition,
            s@.running == state@.running,
            s@.debug_continue == state@.debug_continue,
            s@.break_address == state@.break_address,
            s@.pc == origin,
            stored(mem0, origin, all) == stored(
                s@.mem,
                address,
                words@.subrange(i as int, words@.len() as int),
            ),
        decreases words@.len() - i,
    {
        let ghost rest = words@.subrange(i as int, words@.len() as int);
        s.memory.write(address, words[i]);
        proof {
            assert(rest.subrange(1, rest.len() as int) =~= words@.subrange(
                i + 1,
                words@.len() as int,
            ));
        }
        address = address.wrapping_add(1);
        i = i + 1;
    }

    proof {
        assert(words@.subrange(i as int, words@.len() as int) =~= Seq::<u16>::empty());
        assert(words_of(data@) == words@);
    }
    Ok(s)
}

} // verus!
