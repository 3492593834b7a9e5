//! Bit-packed fields: two four-bit values per byte, and single-bit flags.

use vstd::prelude::*;

verus! {

/// The four-bit value in the low half of a byte.
pub open spec fn low_nibble(b: u8) -> u8 {
    b & 0x0F
}

/// The four-bit value in the high half of a byte.
pub open spec fn high_nibble(b: u8) -> u8 {
    b >> 4
}

/// The `i`-th four-bit value of a packed field: even indices sit in the low
/// half of byte `i / 2`, odd indices in its high half.
pub open spec fn nibble_at(packed: Seq<u8>, i: int) -> u8 {
    if i % 2 == 0 {
        low_nibble(packed[i / 2])
    } else {
        high_nibble(packed[i / 2])
    }
}

/// A byte with its low half replaced by `v`.
pub open spec fn with_low_nibble(b: u8, v: u8) -> u8 {
    (b & 0xF0) | v
}

/// A byte with its high half replaced by `v`.
pub open spec fn with_high_nibble(b: u8, v: u8) -> u8 {
    (b & 0x0F) | (v << 4)
}

/// Whether bit `mask` (a single-bit mask) is set in `flags`.
pub open spec fn flag_set(flags: u8, mask: u8) -> bool {
    flags & mask != 0
}

pub proof fn lemma_nibble_bounds(b: u8)
    ensures
        low_nibble(b) <= 15,
        high_nibble(b) <= 15,
{
    assert(b & 0x0F <= 15) by (bit_vector);
    assert(b >> 4 <= 15) by (bit_vector);
}

pub proof fn lemma_with_low_nibble(b: u8, v: u8)
    requires
        v <= 15,
    ensures
        low_nibble(with_low_nibble(b, v)) == v,
        high_nibble(with_low_nibble(b, v)) == high_nibble(b),
{
    assert(v <= 15 ==> ((b & 0xF0) | v) & 0x0F == v) by (bit_vector);
    assert(v <= 15 ==> ((b & 0xF0) | v) >> 4 == b >> 4) by (bit_vector);
}

pub proof fn lemma_with_high_nibble(b: u8, v: u8)
    requires
        v <= 15,
    ensures
        high_nibble(with_high_nibble(b, v)) == v,
        low_nibble(with_high_nibble(b, v)) == low_nibble(b),
{
    assert(v <= 15 ==> ((b & 0x0F) | (v << 4)) >> 4 == v) by (bit_vector);
    assert(v <= 15 ==> ((b & 0x0F) | (v << 4)) & 0x0F == b & 0x0F) by (bit_vector);
}

/// Reads the `i`-th four-bit value of a five-byte packed field.
pub fn read_nibble(packed: &[u8; 5], i: usize) -> (v: u8)
    requires
        i < 10,
    ensures
        v == nibble_at(packed@, i as int),
        v <= 15,
{
    let byte = packed[i / 2];
    proof {
        lemma_nibble_bounds(byte);
    }
    if i % 2 == 0 {
        byte & 0x0F
    } else {
        byte >> 4
    }
}

/// Writes the `i`-th four-bit value of a five-byte packed field and leaves
/// the other nine as they were.
pub fn write_nibble(packed: &mut [u8; 5], i: usize, v: u8)
    requires
        i < 10,
        v <= 15,
    ensures
        nibble_at(final(packed)@, i as int) == v,
        forall|j: int| 0 <= j < 10 && j != i ==> nibble_at(final(packed)@, j) == nibble_at(old(packed)@, j),
{
    let k = i / 2;
    let byte = packed[k];
    proof {
        lemma_with_low_nibble(byte, v);
        lemma_with_high_nibble(byte, v);
    }
    if i % 2 == 0 {
        packed[k] = (byte & 0xF0) | v;
    } else {
        packed[k] = (byte & 0x0F) | (v << 4);
    }
}

/// Sets or clears the bits of `mask` in `flags`. For a single-bit mask the
/// other flags keep their values.
pub fn write_flag(flags: u8, mask: u8, on: bool) -> (r: u8)
    requires
        mask == 1 || mask == 2,
    ensures
        flag_set(r, mask) == on,
        forall|other: u8| (other == 1 || other == 2) && other != mask ==> flag_set(r, other) == flag_set(flags, other),
{
    proof {
        assert((flags | 1) & 1 != 0) by (bit_vector);
        assert((flags | 1) & 2 == flags & 2) by (bit_vector);
        assert((flags | 2) & 2 != 0) by (bit_vector);
        assert((flags | 2) & 1 == flags & 1) by (bit_vector);
        assert((flags & !1u8) & 1 == 0) by (bit_vector);
        assert((flags & !1u8) & 2 == flags & 2) by (bit_vector);
        assert((flags & !2u8) & 2 == 0) by (bit_vector);
        assert((flags & !2u8) & 1 == flags & 1) by (bit_vector);
    }
    if on {
        flags | mask
    } else {
        flags & !mask
    }
}

/// Tests a flag bit.
pub fn read_flag(flags: u8, mask: u8) -> (r: bool)
    ensures
        r == flag_set(flags, mask),
{
    (flags & mask) != 0
}

} // verus!
