//! Bit-range updates on small integers, through the `bit_field` crate.

use bit_field::BitField;
use vstd::prelude::*;

verus! {

/// Bits `lo..=hi` of a 16-bit word set, all others clear.
pub open spec fn mask16(lo: u16, hi: u16) -> u16 {
    (0xffffu16 >> ((15 - hi) as u16)) & (0xffffu16 << lo)
}

/// The largest value that fits in a field of `width` bits (`1 <= width <= 16`).
pub open spec fn max16(width: u16) -> u16 {
    0xffffu16 >> ((16 - width) as u16)
}

/// `x` with bits `lo..=hi` replaced by `v`.
pub open spec fn with_field16(x: u16, lo: u16, hi: u16, v: u16) -> u16 {
    (x & !mask16(lo, hi)) | (v << lo)
}

/// The value held in bits `lo..=hi` of `x`.
pub open spec fn field16(x: u16, lo: u16, hi: u16) -> u16 {
    (x >> lo) & max16((hi - lo + 1) as u16)
}

/// Bits `lo..=hi` of a byte set, all others clear.
pub open spec fn mask8(lo: u8, hi: u8) -> u8 {
    (0xffu8 >> ((7 - hi) as u8)) & (0xffu8 << lo)
}

/// The largest value that fits in a field of `width` bits (`1 <= width <= 8`).
pub open spec fn max8(width: u8) -> u8 {
    0xffu8 >> ((8 - width) as u8)
}

/// `x` with bits `lo..=hi` replaced by `v`.
pub open spec fn with_field8(x: u8, lo: u8, hi: u8, v: u8) -> u8 {
    (x & !mask8(lo, hi)) | (v << lo)
}

/// The value held in bits `lo..=hi` of `x`.
pub open spec fn field8(x: u8, lo: u8, hi: u8) -> u8 {
    (x >> lo) & max8((hi - lo + 1) as u8)
}

/// Relies on `BitField::set_bits` for `u16` over the range `lo..=hi`: the
/// bits of the range are replaced by `v`, the others kept. It panics when the
/// range leaves the word or `v` does not fit in it.
#[verifier::external_body]
pub(crate) fn set_bits16(x: u16, lo: u16, hi: u16, v: u16) -> (r: u16)
    requires
        lo <= hi < 16,
        v <= max16((hi - lo + 1) as u16),
    ensures
        r == with_field16(x, lo, hi, v),
{
    let mut r = x;
    r.set_bits(lo as usize..=hi as usize, v);
    r
}

/// Relies on `BitField::set_bit` for `u16`: bit `bit` becomes `value`, the
/// others are kept. It panics when `bit` leaves the word.
#[verifier::external_body]
pub(crate) fn set_bit16(x: u16, bit: u16, value: bool) -> (r: u16)
    requires
        bit < 16,
    ensures
        r == with_field16(x, bit, bit, if value { 1u16 } else { 0u16 }),
{
    let mut r = x;
    r.set_bit(bit as usize, value);
    r
}

/// Relies on `BitField::set_bits` for `u8` over the range `lo..=hi`: the
/// bits of the range are replaced by `v`, the others kept. It panics when the
/// range leaves the byte or `v` does not fit in it.
#[verifier::external_body]
pub(crate) fn set_bits8(x: u8, lo: u8, hi: u8, v: u8) -> (r: u8)
    requires
        lo <= hi < 8,
        v <= max8((hi - lo + 1) as u8),
    ensures
        r == with_field8(x, lo, hi, v),
{
    let mut r = x;
    r.set_bits(lo as usize..=hi as usize, v);
    r
}

/// Relies on `BitField::set_bit` for `u8`: bit `bit` becomes `value`, the
/// others are kept. It panics when `bit` leaves the byte.
#[verifier::external_body]
pub(crate) fn set_bit8(x: u8, bit: u8, value: bool) -> (r: u8)
    requires
        bit < 8,
    ensures
        r == with_field8(x, bit, bit, if value { 1u8 } else { 0u8 }),
{
    let mut r = x;
    r.set_bit(bit as usize, value);
    r
}

} // verus!
