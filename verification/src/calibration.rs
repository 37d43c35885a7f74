//! The sensor's factory calibration block: eleven signed big-endian 16-bit
//! coefficients stored in a fixed 22-byte register block.

use vstd::prelude::*;

verus! {

/// The eleven factory-programmed coefficients, read once from the sensor's
/// calibration register block and immutable for the driver's lifetime.
#[derive(Clone, Copy, PartialEq, Eq, Structural, Debug)]
pub struct CalibrationSet {
    pub ac1: i16,
    pub ac2: i16,
    pub ac3: i16,
    pub ac4: i16,
    pub ac5: i16,
    pub ac6: i16,
    pub b1: i16,
    pub b2: i16,
    pub mb: i16,
    pub mc: i16,
    pub md: i16,
}

/// The unsigned value of a big-endian byte pair.
pub open spec fn be_u16(hi: u8, lo: u8) -> int {
    hi * 256 + lo
}

/// The signed (two's complement) value of a big-endian byte pair.
pub open spec fn be_i16(hi: u8, lo: u8) -> int {
    if be_u16(hi, lo) >= 32768 {
        be_u16(hi, lo) - 65536
    } else {
        be_u16(hi, lo)
    }
}

/// The signed 16-bit field whose high byte sits at `off` in the block.
pub open spec fn coeff_at(block: Seq<u8>, off: int) -> int {
    be_i16(block[off], block[off + 1])
}

/// The coefficient set held by a raw 22-byte calibration block: each field
/// is a big-endian signed 16-bit value at its documented byte offset.
pub open spec fn decoded(block: Seq<u8>) -> CalibrationSet {
    CalibrationSet {
        ac1: coeff_at(block, 0) as i16,
        ac2: coeff_at(block, 2) as i16,
        ac3: coeff_at(block, 4) as i16,
        ac4: coeff_at(block, 6) as i16,
        ac5: coeff_at(block, 8) as i16,
        ac6: coeff_at(block, 10) as i16,
        b1: coeff_at(block, 12) as i16,
        b2: coeff_at(block, 14) as i16,
        mb: coeff_at(block, 16) as i16,
        mc: coeff_at(block, 18) as i16,
        md: coeff_at(block, 20) as i16,
    }
}

/// Decode one signed big-endian 16-bit field from its two bytes.
fn decode_i16(hi: u8, lo: u8) -> (r: i16)
    ensures
        r as int == be_i16(hi, lo),
{
    let v: u32 = (hi as u32) * 256 + (lo as u32);
    if v >= 32768 {
        let m: u32 = 65536 - v;
        let neg: i32 = -(m as i32);
        neg as i16
    } else {
        v as i16
    }
}

impl CalibrationSet {
    /// Decode the raw 22-byte calibration register block into the eleven
    /// coefficients, each a big-endian signed 16-bit value at its
    /// documented byte offset.
    pub fn decode(block: &[u8; 22]) -> (r: CalibrationSet)
        ensures
            r == decoded(block@),
    {
        let r = CalibrationSet {
            ac1: decode_i16(block[0], block[1]),
            ac2: decode_i16(block[2], block[3]),
            ac3: decode_i16(block[4], block[5]),
            ac4: decode_i16(block[6], block[7]),
            ac5: decode_i16(block[8], block[9]),
            ac6: decode_i16(block[10], block[11]),
            b1: decode_i16(block[12], block[13]),
            b2: decode_i16(block[14], block[15]),
            mb: decode_i16(block[16], block[17]),
            mc: decode_i16(block[18], block[19]),
            md: decode_i16(block[20], block[21]),
        };
        r
    }
}

} // verus!
