//! Byte-level helpers for splitting and assembling 16-bit words.

use vstd::prelude::*;

verus! {

pub open spec fn spec_low_order_byte(w: u16) -> u8 {
    (w & 0xff) as u8
}

pub open spec fn spec_high_order_byte(w: u16) -> u8 {
    (w >> 8) as u8
}

pub open spec fn spec_assemble_word(high: u8, low: u8) -> u16 {
    ((high as u16) << 8) | (low as u16)
}

/// The low-order 8 bits of a 16-bit word.
pub fn low_order_byte(w: u16) -> (r: u8)
    ensures
        r == spec_low_order_byte(w),
{
    (w & 0xff) as u8
}

/// The high-order 8 bits of a 16-bit word.
pub fn high_order_byte(w: u16) -> (r: u8)
    ensures
        r == spec_high_order_byte(w),
{
    (w >> 8) as u8
}

/// Builds a 16-bit word from a high and a low byte.
pub fn assemble_word(high: u8, low: u8) -> (r: u16)
    ensures
        r == spec_assemble_word(high, low),
{
    ((high as u16) << 8) | (low as u16)
}

/// Splitting a word and assembling the two halves gives the word back.
pub proof fn lemma_assemble_split(w: u16)
    ensures
        spec_assemble_word(spec_high_order_byte(w), spec_low_order_byte(w)) == w,
{
    assert((((w >> 8) as u8 as u16) << 8) | ((w & 0xff) as u8 as u16) == w) by (bit_vector);
}

} // verus!
