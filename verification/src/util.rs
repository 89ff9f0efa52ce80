//! Bit-level helpers shared by every peripheral: reading, setting and
//! clearing a single bit of a byte.

use vstd::prelude::*;

verus! {

/// Whether bit `bit` of `val` is set.
pub open spec fn spec_check_bit(val: u8, bit: u8) -> bool {
    val & (1u8 << bit) != 0
}

/// `val` with bit `bit` forced to `set`.
pub open spec fn spec_modify_bit(val: u8, bit: u8, set: bool) -> u8 {
    if set {
        val | (1u8 << bit)
    } else {
        val & !(1u8 << bit)
    }
}

pub fn modify_bit(val: u8, bit: u8, set: bool) -> (r: u8)
    requires
        bit < 8,
    ensures
        r == spec_modify_bit(val, bit, set),
{
    if set {
        val | (1u8 << bit)
    } else {
        val & !(1u8 << bit)
    }
}

pub fn set_bit(val: u8, bit: u8) -> (r: u8)
    requires
        bit < 8,
    ensures
        r == spec_modify_bit(val, bit, true),
{
    modify_bit(val, bit, true)
}

pub fn clear_bit(val: u8, bit: u8) -> (r: u8)
    requires
        bit < 8,
    ensures
        r == spec_modify_bit(val, bit, false),
{
    modify_bit(val, bit, false)
}

pub fn check_bit(val: u8, bit: u8) -> (r: bool)
    requires
        bit < 8,
    ensures
        r == spec_check_bit(val, bit),
{
    (val & (1u8 << bit)) != 0
}


/// The low nibble of a 16-bit value is at most 15.
pub broadcast proof fn lemma_mask_nibble_u16(x: u16)
    by (bit_vector)
    ensures
        #[trigger] (x & 0xF) <= 0xF,
{
}

/// The low byte of a 16-bit value: bounded, unchanged by the cast to a
/// byte, and equal to the value modulo 256.
pub broadcast proof fn lemma_mask_byte_u16(x: u16)
    by (bit_vector)
    ensures
        #[trigger] (x & 0xFF) <= 0xFF,
        ((x & 0xFF) as u8) == x & 0xFF,
        x & 0xFF == x % 0x100,
{
}

/// The low nibble of a byte is at most 15.
pub broadcast proof fn lemma_mask_nibble_u8(x: u8)
    by (bit_vector)
    ensures
        #[trigger] (x & 0xF) <= 0xF,
{
}

/// Widening a byte and taking the low byte back gives the byte.
pub broadcast proof fn lemma_u8_cast_roundtrip(x: u8)
    by (bit_vector)
    ensures
        ((#[trigger] ((x as u16) & 0xFF)) as u8) == x,
{
}

/// The low twelve bits of a 16-bit value are at most `$0FFF`.
pub broadcast proof fn lemma_mask_12_u16(x: u16)
    by (bit_vector)
    ensures
        #[trigger] (x & 0xFFF) <= 0xFFF,
{
}

/// A modified bit reads back as requested and every other bit is unchanged.
pub broadcast proof fn lemma_modify_bit(val: u8, bit: u8, set: bool)
    by (bit_vector)
    requires
        bit < 8,
    ensures
        spec_check_bit(#[trigger] spec_modify_bit(val, bit, set), bit) == set,
        forall|i: u8|
            i < 8 && i != bit ==> spec_check_bit(spec_modify_bit(val, bit, set), i)
                == spec_check_bit(val, i),
{
}

} // verus!
