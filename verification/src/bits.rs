//! Single bits of a byte, numbered from 0 (least significant) to 7.

use vstd::prelude::*;

verus! {

/// Whether bit `position` of `byte` is set.
pub open spec fn bit(byte: u8, position: u8) -> bool {
    (byte >> position) & 1 == 1
}

/// Reads bit `position` of `byte`.
pub fn test_bit(byte: u8, position: u8) -> (set: bool)
    requires
        position < 8,
    ensures
        set == bit(byte, position),
{
    (byte >> position) & 1 == 1
}

/// Setting or clearing one bit changes that bit and no other.
pub proof fn lemma_bit_set_clear(byte: u8, position: u8, other: u8)
    by (bit_vector)
    requires
        position < 8,
        other < 8,
    ensures
        bit(byte | (1u8 << position), other) == (other == position || bit(byte, other)),
        bit(byte & !(1u8 << position), other) == (other != position && bit(byte, other)),
{
}

/// Two bytes are equal exactly when they agree on every bit, and no bit of
/// zero is set.
pub proof fn lemma_bits_determine_byte(a: u8, b: u8)
    by (bit_vector)
    ensures
        (a == b) <==> (bit(a, 0) == bit(b, 0) && bit(a, 1) == bit(b, 1) && bit(a, 2) == bit(b, 2)
            && bit(a, 3) == bit(b, 3) && bit(a, 4) == bit(b, 4) && bit(a, 5) == bit(b, 5)
            && bit(a, 6) == bit(b, 6) && bit(a, 7) == bit(b, 7)),
        !bit(0, 0) && !bit(0, 1) && !bit(0, 2) && !bit(0, 3),
        !bit(0, 4) && !bit(0, 5) && !bit(0, 6) && !bit(0, 7),
{
}

/// A mask of one bit tests that bit, and each of the four high masks is one
/// shifted to its position.
pub proof fn lemma_high_masks(byte: u8)
    by (bit_vector)
    ensures
        (byte & 0x80 != 0) == bit(byte, 7),
        (byte & 0x40 != 0) == bit(byte, 6),
        (byte & 0x20 != 0) == bit(byte, 5),
        (byte & 0x10 != 0) == bit(byte, 4),
        1u8 << 7u8 == 0x80u8,
        1u8 << 6u8 == 0x40u8,
        1u8 << 5u8 == 0x20u8,
        1u8 << 4u8 == 0x10u8,
{
}

/// Setting or clearing one of the four high bits leaves the low four alone.
pub proof fn lemma_low_nibble_kept(byte: u8, position: u8)
    by (bit_vector)
    requires
        4 <= position < 8,
    ensures
        (byte | (1u8 << position)) % 16u8 == byte % 16u8,
        (byte & !(1u8 << position)) % 16u8 == byte % 16u8,
{
}

/// Two bytes packed into sixteen bits, the first in bits 8 to 15: the value
/// is 256 times the first plus the second.
pub proof fn lemma_pack_bytes(high: u8, low: u8)
    by (bit_vector)
    ensures
        ((high as u16) << 8) | low as u16 == high as u16 * 256 + low as u16,
{
}

/// The two bytes of sixteen bits: the high byte is the quotient by 256, the
/// low byte the remainder.
pub proof fn lemma_split_word(word: u16)
    by (bit_vector)
    ensures
        word >> 8u16 == word / 256u16,
        word & 0xFFu16 == word % 256u16,
{
}

/// Clearing the low four bits of a word clears the low four bits of its low
/// byte and keeps its high byte.
pub proof fn lemma_mask_low_nibble(word: u16)
    by (bit_vector)
    ensures
        (word & 0xFFF0u16) / 256u16 == word / 256u16 && (word & 0xFFF0u16) % 256u16 == (((word
            % 256u16) as u8) & 0xF0u8) as u16 && (((word % 256u16) as u8) & 0xF0u8) % 16u8 == 0u8,
{
}

} // verus!
