use byteorder::{BigEndian, ByteOrder, LittleEndian};
use vstd::prelude::*;

verus! {

/// The unsigned value of two bytes, least significant first.
pub open spec fn le_u16(lo: u8, hi: u8) -> int {
    lo + 256 * hi
}

/// The two's complement value of two bytes, least significant first.
pub open spec fn le_i16(lo: u8, hi: u8) -> int {
    if le_u16(lo, hi) >= 0x8000 {
        le_u16(lo, hi) - 0x1_0000
    } else {
        le_u16(lo, hi)
    }
}

/// The unsigned value of three bytes, most significant first.
pub open spec fn be_u24(b0: u8, b1: u8, b2: u8) -> int {
    0x1_0000 * b0 + 256 * b1 + b2
}

/// Relies on byteorder's `LittleEndian::read_u16`: the first two bytes of
/// `buf`, least significant first (it panics on a shorter buffer).
#[verifier::external_body]
pub(crate) fn read_u16_le(buf: &[u8]) -> (r: u16)
    requires
        buf@.len() >= 2,
    ensures
        r as int == le_u16(buf@[0], buf@[1]),
{
    LittleEndian::read_u16(buf)
}

/// Relies on byteorder's `LittleEndian::read_i16`: the first two bytes of
/// `buf`, least significant first, as two's complement (it panics on a
/// shorter buffer).
#[verifier::external_body]
pub(crate) fn read_i16_le(buf: &[u8]) -> (r: i16)
    requires
        buf@.len() >= 2,
    ensures
        r as int == le_i16(buf@[0], buf@[1]),
{
    LittleEndian::read_i16(buf)
}

/// Relies on byteorder's `BigEndian::read_u24`: the first three bytes of
/// `buf`, most significant first (it panics on a shorter buffer).
#[verifier::external_body]
pub(crate) fn read_u24_be(buf: &[u8]) -> (r: u32)
    requires
        buf@.len() >= 3,
    ensures
        r as int == be_u24(buf@[0], buf@[1], buf@[2]),
{
    BigEndian::read_u24(buf)
}

} // verus!
