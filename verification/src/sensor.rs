//! The sensor driver: fixed-point temperature compensation per the sensor's
//! published formula, and the driver state holding the calibration set and
//! the last computed reading.
//!
//! All intermediate terms of the compensation formula are carried at a fixed
//! scale of 2^16, wide enough that a 64-bit signed value never overflows, and
//! fine enough that the truncation error stays far below one hundredth of a
//! degree. The result is an integer count of hundredths of a degree Celsius.
//! The bus transactions that produce the raw register values are performed by
//! the surrounding runtime; this module turns their bytes into readings.

use vstd::prelude::*;
use vstd::math::abs;
use vstd::arithmetic::div_mod::{lemma_div_nonincreasing, lemma_div_pos_is_pos};

use crate::calibration::{CalibrationSet, decoded};

verus! {

/// The sensor's fixed bus address.
pub const SENSOR_ADDRESS: u8 = 0x77;

/// Register address of the 22-byte calibration block.
pub const CALIBRATION_REGISTER: u8 = 0xaa;

/// Register address of the measurement control register.
pub const CONTROL_REGISTER: u8 = 0xf4;

/// Control value selecting a temperature conversion.
pub const TEMPERATURE_COMMAND: u8 = 0x2e;

/// Register address of the raw measurement (big-endian byte pair).
pub const DATA_REGISTER: u8 = 0xf6;

/// Minimum settling delay between starting a conversion and reading it,
/// in milliseconds.
pub const SETTLE_MS: u32 = 100;

/// Truncating integer quotient, as the executable `/` computes it: the
/// magnitude quotient with the sign of the operands' product.
pub open spec fn tquot(a: int, b: int) -> int
    recommends
        b != 0,
{
    let q = (abs(a) / abs(b)) as int;
    if ((a < 0) <==> (b < 0)) {
        q
    } else {
        -q
    }
}

/// The quotient's magnitude never exceeds the dividend's.
pub proof fn lemma_tquot_magnitude(a: int, b: int)
    requires
        b != 0,
    ensures
        -abs(a) <= tquot(a, b) <= abs(a),
{
    lemma_div_pos_is_pos(abs(a) as int, abs(b) as int);
    lemma_div_nonincreasing(abs(a) as int, abs(b) as int);
}

/// Truncating division on 64-bit values, computed over the magnitudes.
fn quot_trunc(a: i64, b: i64) -> (q: i64)
    requires
        b != 0,
        -0x4000_0000_0000_0000 <= a <= 0x4000_0000_0000_0000,
        -0x4000_0000_0000_0000 <= b <= 0x4000_0000_0000_0000,
    ensures
        q as int == tquot(a as int, b as int),
{
    let ua: u64 = if a >= 0 {
        a as u64
    } else {
        (-a) as u64
    };
    let ub: u64 = if b >= 0 {
        b as u64
    } else {
        (-b) as u64
    };
    proof {
        assert(ua as int == abs(a as int));
        assert(ub as int == abs(b as int));
        lemma_div_pos_is_pos(ua as int, ub as int);
        lemma_div_nonincreasing(ua as int, ub as int);
    }
    let q0: u64 = ua / ub;
    let qs: i64 = q0 as i64;
    if (a < 0) == (b < 0) {
        qs
    } else {
        -qs
    }
}

/// First intermediate term of the compensation formula, at scale 2^16:
/// X1 = (raw - ac6) * ac5 / 2^15.
pub open spec fn x1_scaled(cal: CalibrationSet, raw: u16) -> int {
    (raw - cal.ac6) * cal.ac5 * 2
}

/// Denominator of the second term, at scale 2^16: X1 + md.
pub open spec fn x2_denom(cal: CalibrationSet, raw: u16) -> int {
    x1_scaled(cal, raw) + cal.md * 65536
}

/// The formula is defined wherever its sole division has a non-zero
/// denominator.
pub open spec fn temp_defined(cal: CalibrationSet, raw: u16) -> bool {
    x2_denom(cal, raw) != 0
}

/// Second intermediate term at scale 2^16: X2 = mc * 2^11 / (X1 + md).
pub open spec fn x2_scaled(cal: CalibrationSet, raw: u16) -> int {
    tquot(cal.mc * 2048 * 65536 * 65536, x2_denom(cal, raw))
}

/// B5 = X1 + X2, at scale 2^16.
pub open spec fn b5_scaled(cal: CalibrationSet, raw: u16) -> int {
    x1_scaled(cal, raw) + x2_scaled(cal, raw)
}

/// The compensated temperature in hundredths of a degree Celsius:
/// 100 * ((B5 + 8) / 16) / 10, with B5 carried at scale 2^16.
pub open spec fn temp_centi(cal: CalibrationSet, raw: u16) -> int {
    tquot((b5_scaled(cal, raw) + 8 * 65536) * 5, 8int * 65536)
}

/// Apply the compensation formula to one raw reading. Returns `None`
/// exactly where the formula's division is undefined (zero denominator).
pub fn compensate_temperature(cal: &CalibrationSet, raw: u16) -> (r: Option<i64>)
    ensures
        r is Some <==> temp_defined(*cal, raw),
        r matches Some(t) ==> t as int == temp_centi(*cal, raw),
{
    let diff: i64 = raw as i64 - cal.ac6 as i64;
    proof {
        assert(-32767 <= diff <= 98303);
        assert(-98303 * 32768 <= diff * (cal.ac5 as i64) <= 98303 * 32768) by (nonlinear_arith)
            requires
                -32767 <= diff <= 98303,
                -32768 <= cal.ac5 <= 32767,
        ;
    }
    let x1s: i64 = diff * (cal.ac5 as i64) * 2;
    let den: i64 = x1s + (cal.md as i64) * 65536;
    if den == 0 {
        return None;
    }
    let num: i64 = (cal.mc as i64) * 2048 * 65536 * 65536;
    let x2s: i64 = quot_trunc(num, den);
    proof {
        lemma_tquot_magnitude(num as int, den as int);
    }
    let b5s: i64 = x1s + x2s;
    let q: i64 = quot_trunc((b5s + 8 * 65536) * 5, 8 * 65536);
    Some(q)
}

/// The compensation formula is a function of the calibration set and the
/// raw reading alone: any two results that satisfy its contract on the same
/// inputs are equal.
pub proof fn lemma_compensation_deterministic(
    cal: CalibrationSet,
    raw: u16,
    r1: Option<i64>,
    r2: Option<i64>,
)
    requires
        r1 is Some <==> temp_defined(cal, raw),
        r1 matches Some(t) ==> t as int == temp_centi(cal, raw),
        r2 is Some <==> temp_defined(cal, raw),
        r2 matches Some(t) ==> t as int == temp_centi(cal, raw),
    ensures
        r1 == r2,
{
}

/// The driver: the calibration set fetched once at construction, and the
/// last computed temperature in hundredths of a degree Celsius. The bus
/// handle stays with the runtime, which performs the two transactions of a
/// measurement cycle and hands the raw bytes in.
#[derive(Clone, Copy, PartialEq, Eq, Structural, Debug)]
pub struct Bmp180 {
    pub cal: CalibrationSet,
    pub temp: i64,
}

impl Bmp180 {
    /// Build the driver from the sensor's raw 22-byte calibration block.
    /// The cached reading starts at the zero sentinel; it reflects a
    /// measurement only after the first `measure` call.
    pub fn new(calibration_block: &[u8; 22]) -> (r: Bmp180)
        ensures
            r.cal == decoded(calibration_block@),
            r.temp == 0,
    {
        Bmp180 { cal: CalibrationSet::decode(calibration_block), temp: 0 }
    }

    /// Complete one measurement cycle from the raw big-endian register pair:
    /// compensate and cache the result. Returns whether the formula was
    /// defined on this input; on the (degenerate) undefined input the cache
    /// is left as it was.
    pub fn measure(&mut self, msb: u8, lsb: u8) -> (updated: bool)
        ensures
            final(self).cal == old(self).cal,
            updated == temp_defined(old(self).cal, raw_reading(msb, lsb)),
            updated ==> final(self).temp as int == temp_centi(
                old(self).cal,
                raw_reading(msb, lsb),
            ),
            !updated ==> final(self).temp == old(self).temp,
    {
        let raw: u16 = (msb as u16) * 256 + (lsb as u16);
        match compensate_temperature(&self.cal, raw) {
            Some(t) => {
                self.temp = t;
                true
            },
            None => false,
        }
    }

    /// The most recent completed measurement, in hundredths of a degree
    /// Celsius; the zero sentinel before the first one. Pure accessor.
    pub fn get_temperature(&self) -> (r: i64)
        ensures
            r == self.temp,
    {
        self.temp
    }
}

/// The unsigned 16-bit raw reading held by the measurement register's
/// big-endian byte pair.
pub open spec fn raw_reading(msb: u8, lsb: u8) -> u16 {
    (msb * 256 + lsb) as u16
}

} // verus!
