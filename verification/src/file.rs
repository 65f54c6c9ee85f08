use vstd::prelude::*;

verus! {

/// Why a program image is rejected.
#[derive(Clone, Copy, Debug, PartialEq, Eq, Structural)]
pub enum ImageError {
    /// The byte stream's length is not a multiple of two.
    OddLength,
    /// The image holds no words at all, so there is no load address.
    Empty,
}

/// The big-endian 16-bit word two bytes spell.
pub open spec fn word_be(hi: u8, lo: u8) -> u16 {
    (256 * hi + lo) as u16
}

/// The words of a byte stream, read big-endian pair by pair.
pub open spec fn words_of(data: Seq<u8>) -> Seq<u16> {
    Seq::new((data.len() / 2) as nat, |i: int| word_be(data[2 * i], data[2 * i + 1]))
}

/// Assemble big-endian 16-bit words from a byte stream: every pair of bytes
/// becomes one word. Exactly the streams of even length are accepted.
pub fn from_bytes(data: &[u8]) -> (r: Result<Vec<u16>, ImageError>)
    ensures
        match r {
            Ok(words) => data@.len() % 2 == 0 && words@ == words_of(data@),
            Err(e) => e == ImageError::OddLength && data@.len() % 2 != 0,
        },
{
    if data.len() % 2 != 0 {
        return Err(ImageError::OddLength);
    }

    let mut words: Vec<u16> = Vec::new();
    let mut i: usize = 0;
    while i < data.len()
        invariant
            data@.len() % 2 == 0,
            i % 2 == 0,
            i <= data@.len(),
            words@.len() == i / 2,
            forall|j: int|
                0 <= j < words@.len() ==> words@[j] == word_be(data@[2 * j], data@[2 * j + 1]),
        decreases data@.len() - i,
    {
        let hi = data[i];
        let lo = data[i + 1];
        let word = (lo as u16) | ((hi as u16) << 8);
        proof {
            assert((lo as u16) | ((hi as u16) << 8) == 256 * hi + lo) by (bit_vector);
        }
        words.push(word);
        i = i + 2;
    }

    proof {
        assert(words@ =~= words_of(data@));
    }
    Ok(words)
}

} // verus!
