//! A bitmap of 1024 bits held in eight 128-bit words.
//!
//! Bit `i` lives in word `i / 128`, at position `i % 128`. Indices at or above
//! 1024 name no bit: reading one gives `false`, and setting one changes nothing.

use vstd::prelude::*;

verus! {

/// Whether bit `bit` of `word` is set.
pub open spec fn word_bit(word: u128, bit: usize) -> bool {
    word & (1u128 << bit) != 0
}

/// Whether bit `index` of the bitmap is set. No bit is set outside `0 .. 1024`.
pub open spec fn bit_at(bitmap: Seq<u128>, index: int) -> bool {
    0 <= index < 1024 && word_bit(bitmap[index / 128], (index % 128) as usize)
}

/// Whether no bit of the bitmap is set.
pub open spec fn is_clear(bitmap: Seq<u128>) -> bool {
    forall|j: int| !bit_at(bitmap, j)
}

proof fn lemma_zero_word_has_no_bit(bit: usize)
    ensures
        !word_bit(0u128, bit),
{
    assert(0u128 & (1u128 << bit) == 0) by (bit_vector);
}

/// A bitmap of zero words has no bit set.
pub proof fn lemma_zero_bitmap_is_clear(bitmap: Seq<u128>)
    requires
        forall|i: int| 0 <= i < 8 ==> bitmap[i] == 0,
    ensures
        is_clear(bitmap),
{
    assert forall|j: int| !bit_at(bitmap, j) by {
        if 0 <= j < 1024 {
            lemma_zero_word_has_no_bit((j % 128) as usize);
        }
    }
}

spec fn low_bits(word: u128, count: u128) -> u128 {
    if count >= 128 {
        word
    } else {
        word & !(u128::MAX << count)
    }
}

proof fn lemma_low_bits_agree(left: u128, right: u128, count: u128)
    requires
        count <= 128,
        forall|bit: usize| bit < 128 ==> word_bit(left, bit) == word_bit(right, bit),
    ensures
        low_bits(left, count) == low_bits(right, count),
    decreases count,
{
    if count == 0 {
        assert(left & !(u128::MAX << 0u128) == 0) by (bit_vector);
        assert(right & !(u128::MAX << 0u128) == 0) by (bit_vector);
    } else {
        let below = (count - 1) as u128;
        lemma_low_bits_agree(left, right, below);
        let bit = below as usize;
        assert(word_bit(left, bit) == word_bit(right, bit));
        let low_left = low_bits(left, below);
        let low_right = low_bits(right, below);
        assert(left & (1u128 << bit) == right & (1u128 << bit)) by (bit_vector)
            requires
                (left & (1u128 << bit) != 0) == (right & (1u128 << bit) != 0),
        ;
        assert(low_bits(left, count) == low_left | (left & (1u128 << bit))) by (bit_vector)
            requires
                count >= 1,
                count <= 128,
                below == count - 1,
                bit == below,
                low_left == left & !(u128::MAX << below),
                low_bits(left, count) == if count >= 128 {
                    left
                } else {
                    left & !(u128::MAX << count)
                },
        ;
        assert(low_bits(right, count) == low_right | (right & (1u128 << bit))) by (bit_vector)
            requires
                count >= 1,
                count <= 128,
                below == count - 1,
                bit == below,
                low_right == right & !(u128::MAX << below),
                low_bits(right, count) == if count >= 128 {
                    right
                } else {
                    right & !(u128::MAX << count)
                },
        ;
    }
}

proof fn lemma_words_with_same_bits_are_equal(left: u128, right: u128)
    requires
        forall|bit: usize| bit < 128 ==> word_bit(left, bit) == word_bit(right, bit),
    ensures
        left == right,
{
    lemma_low_bits_agree(left, right, 128);
}

/// Bitmaps with the same bits set are the same bitmap.
pub proof fn lemma_bitmaps_with_same_bits_are_equal(left: [u128; 8], right: [u128; 8])
    requires
        forall|j: int| 0 <= j < 1024 ==> bit_at(left@, j) == bit_at(right@, j),
    ensures
        left == right,
{
    assert forall|i: int| 0 <= i < 8 implies left[i] == right[i] by {
        assert forall|bit: usize| bit < 128 implies word_bit(left[i], bit) == word_bit(
            right[i],
            bit,
        ) by {
            let j = i * 128 + bit;
            assert(j / 128 == i && j % 128 == bit);
            assert(bit_at(left@, j) == bit_at(right@, j));
        }
        lemma_words_with_same_bits_are_equal(left[i], right[i]);
    }
    assert(left =~= right);
}

proof fn lemma_or_sets_one_bit(word: u128, set: usize, read: usize)
    requires
        set < 128,
        read < 128,
    ensures
        word_bit(word | (1u128 << set), read) == (word_bit(word, read) || read == set),
{
    assert(((word | (1u128 << set)) & (1u128 << read) != 0) == ((word & (1u128 << read) != 0)
        || read == set)) by (bit_vector)
        requires
            set < 128,
            read < 128,
    ;
}

/// Reads bit `index` of the bitmap.
pub fn is_bit_set(bitmap: &[u128; 8], index: usize) -> (set: bool)
    ensures
        set == bit_at(bitmap@, index as int),
{
    let array_idx = index / 128;
    let bit_idx = index % 128;
    if array_idx >= 8 {
        return false;
    }
    (bitmap[array_idx] & (1u128 << bit_idx)) != 0
}

/// Sets bit `index` of the bitmap and leaves every other bit as it was.
pub fn set_bit(bitmap: &mut [u128; 8], index: usize)
    ensures
        forall|j: int| bit_at(final(bitmap)@, j) == (bit_at(old(bitmap)@, j) || (j == index && j < 1024)),
        index >= 1024 ==> *final(bitmap) == *old(bitmap),
{
    let array_idx = index / 128;
    let bit_idx = index % 128;
    if array_idx < 8 {
        let word = bitmap[array_idx];
        bitmap[array_idx] = word | (1u128 << bit_idx);
        proof {
            assert forall|j: int| bit_at(bitmap@, j) == (bit_at(old(bitmap)@, j) || j == index) by {
                if 0 <= j < 1024 {
                    if j / 128 == array_idx as int {
                        lemma_or_sets_one_bit(word, bit_idx, (j % 128) as usize);
                    }
                }
            }
        }
    }
}

/// Moves every bit `shift` places up: bit `i` goes to `i + shift`. Bits that would
/// land at or above 1024 are dropped, and the `shift` lowest bits end up clear.
pub fn shift_bitmap(bitmap: &mut [u128; 8], shift: usize)
    ensures
        forall|j: int|
            bit_at(final(bitmap)@, j) == (shift <= j < 1024 && bit_at(old(bitmap)@, j - shift)),
{
    if shift >= 1024 {
        *bitmap = [0u128; 8];
        proof {
            lemma_zero_bitmap_is_clear(bitmap@);
        }
        return;
    }
    let mut new_bitmap = [0u128; 8];
    proof {
        lemma_zero_bitmap_is_clear(new_bitmap@);
    }
    let kept: usize = 1024 - shift;
    let mut i: usize = 0;
    while i < kept
        invariant
            shift < 1024,
            kept == 1024 - shift,
            i <= kept,
            forall|j: int|
                bit_at(new_bitmap@, j) == (shift <= j < i + shift && bit_at(bitmap@, j - shift)),
        decreases kept - i,
    {
        if is_bit_set(bitmap, i) {
            set_bit(&mut new_bitmap, i + shift);
        }
        i = i + 1;
    }
    *bitmap = new_bitmap;
}

} // verus!
