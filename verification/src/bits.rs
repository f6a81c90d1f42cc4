//! Bits of a byte.
use vstd::prelude::*;

verus! {

/// Bit `n` of a byte, counted from the lowest.
pub open spec fn bit(v: u8, n: int) -> bool {
    if n == 0 {
        v % 2 == 1
    } else if n == 1 {
        (v / 2) % 2 == 1
    } else if n == 2 {
        (v / 4) % 2 == 1
    } else if n == 3 {
        (v / 8) % 2 == 1
    } else if n == 4 {
        (v / 16) % 2 == 1
    } else if n == 5 {
        (v / 32) % 2 == 1
    } else if n == 6 {
        (v / 64) % 2 == 1
    } else {
        v >= 128
    }
}

/// Masking a byte with the weight of a bit tests that bit.
pub proof fn lemma_mask_tests_bit(v: u8)
    ensures
        (v & 0x01 != 0) == bit(v, 0),
        (v & 0x02 != 0) == bit(v, 1),
        (v & 0x04 != 0) == bit(v, 2),
        (v & 0x08 != 0) == bit(v, 3),
        (v & 0x10 != 0) == bit(v, 4),
        (v & 0x20 != 0) == bit(v, 5),
        (v & 0x40 != 0) == bit(v, 6),
        (v & 0x80 != 0) == bit(v, 7),
{
    lemma_masks(v);
}

proof fn lemma_masks(v: u8)
    by (bit_vector)
    ensures
        (v & 0x01 != 0) == (v % 2 == 1),
        (v & 0x02 != 0) == ((v / 2) % 2 == 1),
        (v & 0x04 != 0) == ((v / 4) % 2 == 1),
        (v & 0x08 != 0) == ((v / 8) % 2 == 1),
        (v & 0x10 != 0) == ((v / 16) % 2 == 1),
        (v & 0x20 != 0) == ((v / 32) % 2 == 1),
        (v & 0x40 != 0) == ((v / 64) % 2 == 1),
        (v & 0x80 != 0) == (v >= 128),
{
}

/// Shifting a byte down to a bit gives that bit.
pub proof fn lemma_shift_gives_bit(v: u8, n: int)
    requires
        0 <= n < 8,
    ensures
        (v >> (n as u8)) & 1u8 == (if bit(v, n) { 1u8 } else { 0u8 }),
{
    lemma_shifts(v);
}

proof fn lemma_shifts(v: u8)
    by (bit_vector)
    ensures
        (v >> 0u8) & 1u8 == v % 2,
        (v >> 1u8) & 1u8 == (v / 2) % 2,
        (v >> 2u8) & 1u8 == (v / 4) % 2,
        (v >> 3u8) & 1u8 == (v / 8) % 2,
        (v >> 4u8) & 1u8 == (v / 16) % 2,
        (v >> 5u8) & 1u8 == (v / 32) % 2,
        (v >> 6u8) & 1u8 == (v / 64) % 2,
        (v >> 7u8) & 1u8 == v / 128,
{
}

} // verus!
