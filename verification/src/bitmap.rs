//! Bit-level access to a bitmap stored as 64-bit words.
//!
//! Bit `i` of the bitmap lives in word `i / 64` at position `i % 64`.

use vstd::prelude::*;

verus! {

/// Number of bits in one bitmap word.
pub const WORD_BITS: usize = 64;

/// Whether bit `i` (counted from the least significant bit) of `w` is set.
pub open spec fn word_bit(w: u64, i: int) -> bool {
    (w >> (i as u64)) & 1u64 == 1u64
}

/// Whether bit `i` of the bitmap `words` is set.
pub open spec fn bit_at(words: Seq<u64>, i: int) -> bool {
    word_bit(words[i / 64], i % 64)
}

/// Masking a word with bit `i` is nonzero exactly if bit `i` is set.
proof fn lemma_word_test(w: u64, i: u64)
    by (bit_vector)
    requires
        i < 64,
    ensures
        (w & (1u64 << i) != 0) == ((w >> i) & 1u64 == 1u64),
{
}

/// Or-ing bit `i` into a word sets bit `i` and keeps every other bit.
proof fn lemma_word_set(w: u64, i: u64, j: u64)
    by (bit_vector)
    requires
        i < 64,
        j < 64,
    ensures
        (((w | (1u64 << i)) >> j) & 1u64 == 1u64) == (j == i || (w >> j) & 1u64 == 1u64),
{
}

/// Masking bit `i` out of a word clears bit `i` and keeps every other bit.
proof fn lemma_word_reset(w: u64, i: u64, j: u64)
    by (bit_vector)
    requires
        i < 64,
        j < 64,
    ensures
        (((w & !(1u64 << i)) >> j) & 1u64 == 1u64) == (j != i && (w >> j) & 1u64 == 1u64),
{
}

/// Every bit of the word of all ones is set.
proof fn lemma_word_full(j: u64)
    by (bit_vector)
    requires
        j < 64,
    ensures
        ((!0u64) >> j) & 1u64 == 1u64,
{
}

/// Every bit of a word of all ones is set.
pub proof fn lemma_full_word(i: int)
    requires
        0 <= i < 64,
    ensures
        word_bit(!0u64, i),
{
    lemma_word_full(i as u64);
}

/// Reads bit `idx` of the bitmap.
pub fn bit_test(bitmap: &Vec<u64>, idx: usize) -> (set: bool)
    requires
        idx < bitmap.len() * 64,
    ensures
        set == bit_at(bitmap@, idx as int),
{
    let word: u64 = bitmap[idx / WORD_BITS];
    let pos: u64 = (idx % WORD_BITS) as u64;
    proof {
        lemma_word_test(word, pos);
    }
    word & (1u64 << pos) != 0
}

/// Sets bit `idx` of the bitmap and leaves every other bit as it was.
pub fn bit_set(bitmap: &mut Vec<u64>, idx: usize)
    requires
        idx < old(bitmap).len() * 64,
    ensures
        final(bitmap).len() == old(bitmap).len(),
        forall|j: int|
            0 <= j < old(bitmap).len() * 64 ==> #[trigger] bit_at(final(bitmap)@, j) == (j == idx
                || bit_at(old(bitmap)@, j)),
    no_unwind
{
    let slot: usize = idx / WORD_BITS;
    let pos: u64 = (idx % WORD_BITS) as u64;
    let word: u64 = bitmap[slot];
    let updated: u64 = word | (1u64 << pos);
    bitmap[slot] = updated;
    proof {
        assert forall|j: int| 0 <= j < old(bitmap).len() * 64 implies #[trigger] bit_at(
            bitmap@,
            j,
        ) == (j == idx || bit_at(old(bitmap)@, j)) by {
            if j / 64 == slot as int {
                lemma_word_set(word, pos, (j % 64) as u64);
            }
        }
    }
}

/// Clears bit `idx` of the bitmap and leaves every other bit as it was.
pub fn bit_reset(bitmap: &mut Vec<u64>, idx: usize)
    requires
        idx < old(bitmap).len() * 64,
    ensures
        final(bitmap).len() == old(bitmap).len(),
        forall|j: int|
            0 <= j < old(bitmap).len() * 64 ==> #[trigger] bit_at(final(bitmap)@, j) == (j != idx
                && bit_at(old(bitmap)@, j)),
    no_unwind
{
    let slot: usize = idx / WORD_BITS;
    let pos: u64 = (idx % WORD_BITS) as u64;
    let word: u64 = bitmap[slot];
    let updated: u64 = word & !(1u64 << pos);
    bitmap[slot] = updated;
    proof {
        assert forall|j: int| 0 <= j < old(bitmap).len() * 64 implies #[trigger] bit_at(
            bitmap@,
            j,
        ) == (j != idx && bit_at(old(bitmap)@, j)) by {
            if j / 64 == slot as int {
                lemma_word_reset(word, pos, (j % 64) as u64);
            }
        }
    }
}

} // verus!
