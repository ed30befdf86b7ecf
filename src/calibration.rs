use crate::bytes::{le_i16, le_u16, read_i16_le, read_u16_le};
use crate::registers::CALIBRATION_WORDS;
use vstd::slice::slice_subrange;
use vstd::prelude::*;

verus! {

/// Number of bytes in the calibration block: twelve 16-bit words.
pub const CALIBRATION_BYTES: usize = 24;

/// The factory calibration words of a BMP280.
#[derive(Clone, Copy, Debug, PartialEq, Eq, Structural)]
pub struct Calibration {
    pub dig_t1: u16,
    pub dig_t2: i16,
    pub dig_t3: i16,
    pub dig_p1: u16,
    pub dig_p2: i16,
    pub dig_p3: i16,
    pub dig_p4: i16,
    pub dig_p5: i16,
    pub dig_p6: i16,
    pub dig_p7: i16,
    pub dig_p8: i16,
    pub dig_p9: i16,
}

impl Calibration {
    /// The calibration with every word zero.
    pub open spec fn spec_zeroed() -> Calibration {
        Calibration {
            dig_t1: 0,
            dig_t2: 0,
            dig_t3: 0,
            dig_p1: 0,
            dig_p2: 0,
            dig_p3: 0,
            dig_p4: 0,
            dig_p5: 0,
            dig_p6: 0,
            dig_p7: 0,
            dig_p8: 0,
            dig_p9: 0,
        }
    }

    /// The calibration held in a block of consecutive little-endian words,
    /// in register order: T1, T2, T3, P1..P9. T1 and P1 are unsigned, the
    /// others two's complement.
    pub open spec fn spec_from_registers(b: Seq<u8>) -> Calibration {
        Calibration {
            dig_t1: le_u16(b[0], b[1]) as u16,
            dig_t2: le_i16(b[2], b[3]) as i16,
            dig_t3: le_i16(b[4], b[5]) as i16,
            dig_p1: le_u16(b[6], b[7]) as u16,
            dig_p2: le_i16(b[8], b[9]) as i16,
            dig_p3: le_i16(b[10], b[11]) as i16,
            dig_p4: le_i16(b[12], b[13]) as i16,
            dig_p5: le_i16(b[14], b[15]) as i16,
            dig_p6: le_i16(b[16], b[17]) as i16,
            dig_p7: le_i16(b[18], b[19]) as i16,
            dig_p8: le_i16(b[20], b[21]) as i16,
            dig_p9: le_i16(b[22], b[23]) as i16,
        }
    }

    /// Decodes the calibration block. `bytes` holds the twelve words as read
    /// from their registers (see `Register::calibration`), two bytes each.
    pub fn from_registers(bytes: &[u8]) -> (r: Calibration)
        requires
            bytes@.len() == CALIBRATION_BYTES,
        ensures
            r == Self::spec_from_registers(bytes@),
    {
        Calibration {
            dig_t1: read_u16_le(word(bytes, 0)),
            dig_t2: read_i16_le(word(bytes, 1)),
            dig_t3: read_i16_le(word(bytes, 2)),
            dig_p1: read_u16_le(word(bytes, 3)),
            dig_p2: read_i16_le(word(bytes, 4)),
            dig_p3: read_i16_le(word(bytes, 5)),
            dig_p4: read_i16_le(word(bytes, 6)),
            dig_p5: read_i16_le(word(bytes, 7)),
            dig_p6: read_i16_le(word(bytes, 8)),
            dig_p7: read_i16_le(word(bytes, 9)),
            dig_p8: read_i16_le(word(bytes, 10)),
            dig_p9: read_i16_le(word(bytes, 11)),
        }
    }
}

impl Default for Calibration {
    /// The all-zero calibration, which stands until the device's words are read.
    fn default() -> (r: Calibration)
        ensures
            r == Calibration::spec_zeroed(),
    {
        Calibration {
            dig_t1: 0,
            dig_t2: 0,
            dig_t3: 0,
            dig_p1: 0,
            dig_p2: 0,
            dig_p3: 0,
            dig_p4: 0,
            dig_p5: 0,
            dig_p6: 0,
            dig_p7: 0,
            dig_p8: 0,
            dig_p9: 0,
        }
    }
}

/// The two bytes of the `i`-th word of the calibration block.
fn word(bytes: &[u8], i: usize) -> (r: &[u8])
    requires
        bytes@.len() == CALIBRATION_BYTES,
        i < CALIBRATION_WORDS,
    ensures
        r@ == bytes@.subrange(2 * i as int, 2 * i + 2),
{
    slice_subrange(bytes, 2 * i, 2 * i + 2)
}

} // verus!
