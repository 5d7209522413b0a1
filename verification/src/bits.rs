//! Bit-level access to 32-bit registers through the `bit_field` crate.

use bit_field::BitField;
use vstd::prelude::*;

verus! {

/// Relies on bit_field's `BitField::get_bit` for `u32`: bit `bit` of `v`,
/// counting from the least significant end.
#[verifier::external_body]
pub(crate) fn get_bit_u32(v: u32, bit: usize) -> (r: bool)
    requires
        bit < 32,
    ensures
        r == ((v >> (bit as u32)) & 1 == 1),
{
    v.get_bit(bit)
}

/// Relies on bit_field's `BitField::get_bits` for `u32`: bits `lo..hi` of
/// `v`, shifted down to the least significant end.
#[verifier::external_body]
pub(crate) fn get_bits_u32(v: u32, lo: usize, hi: usize) -> (r: u32)
    requires
        lo < hi,
        hi <= 32,
        hi - lo < 32,
    ensures
        r == (v >> (lo as u32)) & (((1u32 << ((hi - lo) as u32)) - 1) as u32),
{
    v.get_bits(lo..hi)
}

} // verus!
