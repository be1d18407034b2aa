//! Little-endian byte layout of 32-bit words, as the device reads the
//! directory and push constants.
use vstd::prelude::*;

verus! {

/// Byte `k` (0 = least significant) of `w`.
pub open spec fn word_byte(w: u32, k: int) -> u8 {
    if k == 0 {
        (w % 256) as u8
    } else if k == 1 {
        ((w / 256) % 256) as u8
    } else if k == 2 {
        ((w / 65536) % 256) as u8
    } else {
        (w / 16777216) as u8
    }
}

/// The little-endian encoding of `words`: four bytes per word, least
/// significant first.
pub open spec fn le_bytes(words: Seq<u32>) -> Seq<u8> {
    Seq::new(4 * words.len(), |i: int| word_byte(words[i / 4], i % 4))
}

/// Encodes `words` little-endian, four bytes per word.
pub fn encode_words(words: &[u32]) -> (r: Vec<u8>)
    requires
        words@.len() * 4 <= usize::MAX,
    ensures
        r@ == le_bytes(words@),
{
    let mut r: Vec<u8> = Vec::with_capacity(words.len() * 4);
    let mut i: usize = 0;
    while i < words.len()
        invariant
            i <= words@.len(),
            words@.len() * 4 <= usize::MAX,
            r@ == le_bytes(words@.take(i as int)),
        decreases words@.len() - i,
    {
        let w = words[i];
        let ghost before = r@;
        r.push((w % 256) as u8);
        r.push(((w / 256) % 256) as u8);
        r.push(((w / 65536) % 256) as u8);
        r.push((w / 16777216) as u8);
        assert(r@ =~= le_bytes(words@.take(i + 1))) by {
            assert forall|j: int| 0 <= j < 4 * (i + 1) implies r@[j] == word_byte(
                words@.take(i + 1)[j / 4],
                j % 4,
            ) by {
                if j < 4 * i {
                    assert(before[j] == word_byte(words@.take(i as int)[j / 4], j % 4));
                }
            }
        }
        i = i + 1;
    }
    assert(words@.take(words@.len() as int) =~= words@);
    r
}

} // verus!
