//! Single-bit access to packed register bytes and words.
//!
//! The bitfield types of this crate keep their flags in one integer. Their
//! getters and builders are stated over the four functions below, and the
//! lemmas say how a written bit reads back.

use vstd::prelude::*;

verus! {

/// Whether bit `index` of `bits` is set.
pub open spec fn bit8(bits: u8, index: u8) -> bool {
    (bits >> index) & 1u8 == 1u8
}

/// `bits` with bit `index` set to `value` and every other bit kept.
pub open spec fn with_bit8(bits: u8, index: u8, value: bool) -> u8 {
    if value {
        bits | (1u8 << index)
    } else {
        bits & !(1u8 << index)
    }
}

/// Whether bit `index` of `bits` is set.
pub open spec fn bit32(bits: u32, index: u32) -> bool {
    (bits >> index) & 1u32 == 1u32
}

/// `bits` with bit `index` set to `value` and every other bit kept.
pub open spec fn with_bit32(bits: u32, index: u32, value: bool) -> u32 {
    if value {
        bits | (1u32 << index)
    } else {
        bits & !(1u32 << index)
    }
}

/// Whether `after` is `before` with bit `index` set to `value`, bit by bit:
/// that bit reads as `value`, and every other bit reads as it did.
pub open spec fn one_bit_written8(before: u8, after: u8, index: u8, value: bool) -> bool {
    forall|other: u8|
        other < 8 ==> #[trigger] bit8(after, other) == (if other == index {
            value
        } else {
            bit8(before, other)
        })
}

/// Whether `after` is `before` with bit `index` set to `value`, bit by bit:
/// that bit reads as `value`, and every other bit reads as it did.
pub open spec fn one_bit_written32(before: u32, after: u32, index: u32, value: bool) -> bool {
    forall|other: u32|
        other < 32 ==> #[trigger] bit32(after, other) == (if other == index {
            value
        } else {
            bit32(before, other)
        })
}

/// Reads one bit of a byte.
pub fn get_bit8(bits: u8, index: u8) -> (set: bool)
    requires
        index < 8,
    ensures
        set == bit8(bits, index),
{
    (bits >> index) & 1u8 == 1u8
}

/// Writes one bit of a byte.
pub fn set_bit8(bits: u8, index: u8, value: bool) -> (out: u8)
    requires
        index < 8,
    ensures
        out == with_bit8(bits, index, value),
        one_bit_written8(bits, out, index, value),
{
    proof {
        assert forall|other: u8| other < 8 implies #[trigger] bit8(
            with_bit8(bits, index, value),
            other,
        ) == (if other == index {
            value
        } else {
            bit8(bits, other)
        }) by {
            lemma_with_bit8(bits, index, value, other);
        }
    }
    if value {
        bits | (1u8 << index)
    } else {
        bits & !(1u8 << index)
    }
}

/// Reads one bit of a 32-bit word.
pub fn get_bit32(bits: u32, index: u32) -> (set: bool)
    requires
        index < 32,
    ensures
        set == bit32(bits, index),
{
    (bits >> index) & 1u32 == 1u32
}

/// Writes one bit of a 32-bit word.
pub fn set_bit32(bits: u32, index: u32, value: bool) -> (out: u32)
    requires
        index < 32,
    ensures
        out == with_bit32(bits, index, value),
        one_bit_written32(bits, out, index, value),
{
    proof {
        assert forall|other: u32| other < 32 implies #[trigger] bit32(
            with_bit32(bits, index, value),
            other,
        ) == (if other == index {
            value
        } else {
            bit32(bits, other)
        }) by {
            lemma_with_bit32(bits, index, value, other);
        }
    }
    if value {
        bits | (1u32 << index)
    } else {
        bits & !(1u32 << index)
    }
}

/// A written bit reads back as written, and no other bit of the byte moves.
pub proof fn lemma_with_bit8(bits: u8, index: u8, value: bool, other: u8)
    by (bit_vector)
    requires
        index < 8,
        other < 8,
    ensures
        bit8(with_bit8(bits, index, value), other) == (if other == index {
            value
        } else {
            bit8(bits, other)
        }),
{
}

/// A written bit reads back as written, and no other bit of the word moves.
pub proof fn lemma_with_bit32(bits: u32, index: u32, value: bool, other: u32)
    by (bit_vector)
    requires
        index < 32,
        other < 32,
    ensures
        bit32(with_bit32(bits, index, value), other) == (if other == index {
            value
        } else {
            bit32(bits, other)
        }),
{
}

} // verus!
