//! Bit-level addressing within a framebuffer byte.
//!
//! A byte packs 8 horizontally adjacent pixels, least-significant bit
//! first: bit 0 is the leftmost pixel of the byte group.

use vstd::prelude::*;

verus! {

/// True when bit `i` (0 = least significant) of `b` is set.
pub open spec fn bit_is_set(b: u8, i: u8) -> bool {
    (b >> i) & 1u8 == 1u8
}

/// `b` with bit `i` forced to 1.
pub open spec fn with_bit_set(b: u8, i: u8) -> u8 {
    b | (1u8 << i)
}

/// `b` with bit `i` forced to 0.
pub open spec fn with_bit_clear(b: u8, i: u8) -> u8 {
    b & !(1u8 << i)
}

/// Setting bit `i` makes it read back as set.
pub proof fn lemma_set_bit_reads_set(b: u8, i: u8)
    by (bit_vector)
    requires
        i < 8,
    ensures
        bit_is_set(with_bit_set(b, i), i),
{
}

/// Clearing bit `i` makes it read back as clear.
pub proof fn lemma_clear_bit_reads_clear(b: u8, i: u8)
    by (bit_vector)
    requires
        i < 8,
    ensures
        !bit_is_set(with_bit_clear(b, i), i),
{
}

/// Setting or clearing bit `i` leaves every other bit of the byte as it was.
pub proof fn lemma_other_bits_unchanged(b: u8, i: u8, j: u8)
    by (bit_vector)
    requires
        i < 8,
        j < 8,
        i != j,
    ensures
        bit_is_set(with_bit_set(b, i), j) == bit_is_set(b, j),
        bit_is_set(with_bit_clear(b, i), j) == bit_is_set(b, j),
{
}

} // verus!
