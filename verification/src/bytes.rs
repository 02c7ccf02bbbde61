//! Byte images of `u32` words, as they are uploaded to GPU buffers.
use vstd::prelude::*;

verus! {

/// Byte `k` (0 = least significant) of `w`.
pub open spec fn word_byte(w: u32, k: int) -> u8 {
    let divisor: int = if k == 0 {
        1
    } else if k == 1 {
        256
    } else if k == 2 {
        65536
    } else {
        16777216
    };
    ((w as int / divisor) % 256) as u8
}

/// The words laid out least significant byte first.
pub open spec fn words_le_bytes(words: Seq<u32>) -> Seq<u8> {
    Seq::new(4 * words.len(), |i: int| word_byte(words[i / 4], i % 4))
}

/// The words laid out most significant byte first.
pub open spec fn words_be_bytes(words: Seq<u32>) -> Seq<u8> {
    Seq::new(4 * words.len(), |i: int| word_byte(words[i / 4], 3 - i % 4))
}

/// Copies the memory image of `words` with `bytemuck::cast_slice::<u32, u8>`.
/// The image is the words in the machine's byte order, which is little-endian or
/// big-endian; which of the two it is depends on the machine and is not stated.
/// The cast of `u32` to `u8` cannot fail (no alignment or size mismatch), so it
/// does not panic.
#[verifier::external_body]
pub(crate) fn cast_words_to_bytes(words: &[u32]) -> (bytes: Vec<u8>)
    ensures
        bytes@ == words_le_bytes(words@) || bytes@ == words_be_bytes(words@),
{
    bytemuck::cast_slice::<u32, u8>(words).to_vec()
}

} // verus!
