//! Tests of the sensor driver: calibration decoding, temperature
//! compensation, the cached reading, and payload formatting.

use bmp180_agent::calibration::CalibrationSet;
use bmp180_agent::payload::format_temperature;
use bmp180_agent::sensor::{compensate_temperature, Bmp180};

/// The published example coefficient set, laid out as the sensor's raw
/// big-endian calibration block.
fn datasheet_block() -> [u8; 22] {
    [
        1, 152, // ac1 = 408
        255, 184, // ac2 = -72
        199, 209, // ac3 = -14383
        127, 229, // ac4 = 32741
        127, 245, // ac5 = 32757
        90, 113, // ac6 = 23153
        24, 46, // b1 = 6190
        0, 4, // b2 = 4
        128, 0, // mb = -32768
        221, 249, // mc = -8711
        11, 52, // md = 2868
    ]
}

/// A block whose sole division hits a zero denominator at raw reading 2:
/// ac5 = 16384, ac6 = 0, md = -1, all else zero.
fn pole_block() -> [u8; 22] {
    let mut b = [0u8; 22];
    b[8] = 64; // ac5 = 0x4000
    b[20] = 255;
    b[21] = 255; // md = -1
    b
}

#[test]
fn decode_reproduces_documented_fields() {
    let cal = CalibrationSet::decode(&datasheet_block());
    assert_eq!(cal.ac1, 408);
    assert_eq!(cal.ac2, -72);
    assert_eq!(cal.ac3, -14383);
    assert_eq!(cal.ac4, 32741);
    assert_eq!(cal.ac5, 32757);
    assert_eq!(cal.ac6, 23153);
    assert_eq!(cal.b1, 6190);
    assert_eq!(cal.b2, 4);
    assert_eq!(cal.mb, -32768);
    assert_eq!(cal.mc, -8711);
    assert_eq!(cal.md, 2868);
}

#[test]
fn decode_sign_boundaries() {
    let mut block = [0u8; 22];
    block[0] = 127;
    block[1] = 255; // 0x7fff
    block[2] = 128;
    block[3] = 0; // 0x8000
    block[4] = 255;
    block[5] = 255; // 0xffff
    let cal = CalibrationSet::decode(&block);
    assert_eq!(cal.ac1, 32767);
    assert_eq!(cal.ac2, -32768);
    assert_eq!(cal.ac3, -1);
    assert_eq!(cal.ac4, 0);
}

#[test]
fn compensation_matches_datasheet_example() {
    // The datasheet's sample computation: UT = 27898 with the example
    // coefficients yields 15.0 degrees Celsius.
    let cal = CalibrationSet::decode(&datasheet_block());
    let t = compensate_temperature(&cal, 27898).unwrap();
    assert_eq!(t, 1504);
    assert!((t - 1500).abs() <= 10);
}

#[test]
fn compensation_matches_published_reference_value() {
    // With mc adjusted to the reference coefficient set, UT = 27898 must
    // come out at 21.16 degrees Celsius within a tenth of a degree.
    let mut block = datasheet_block();
    block[18] = 236;
    block[19] = 44; // mc = -5076
    let cal = CalibrationSet::decode(&block);
    let t = compensate_temperature(&cal, 27898).unwrap();
    assert_eq!(t, 2116);
    assert!((t - 2116).abs() <= 10);
}

#[test]
fn compensation_is_deterministic() {
    let cal = CalibrationSet::decode(&datasheet_block());
    for raw in [0u16, 1, 12345, 27898, 65535] {
        assert_eq!(
            compensate_temperature(&cal, raw),
            compensate_temperature(&cal, raw)
        );
    }
}

#[test]
fn compensation_undefined_only_at_pole() {
    let cal = CalibrationSet::decode(&pole_block());
    assert_eq!(compensate_temperature(&cal, 2), None);
    assert!(compensate_temperature(&cal, 3).is_some());
    let datasheet = CalibrationSet::decode(&datasheet_block());
    assert!(compensate_temperature(&datasheet, 27898).is_some());
}

#[test]
fn driver_starts_at_sentinel() {
    let bmp = Bmp180::new(&datasheet_block());
    assert_eq!(bmp.get_temperature(), 0);
}

#[test]
fn measure_then_get_temperature_is_fresh() {
    let mut bmp = Bmp180::new(&datasheet_block());
    // UT = 27898 arrives as the big-endian pair (108, 250).
    assert!(bmp.measure(108, 250));
    assert_eq!(bmp.get_temperature(), 1504);
}

#[test]
fn cache_reflects_most_recent_cycle_only() {
    let mut bmp = Bmp180::new(&datasheet_block());
    assert!(bmp.measure(108, 250));
    let first = bmp.get_temperature();
    assert!(bmp.measure(100, 0)); // UT = 25600
    let second = bmp.get_temperature();
    assert_ne!(first, second);
    assert!(bmp.measure(108, 250));
    assert_eq!(bmp.get_temperature(), first);
}

#[test]
fn measure_at_pole_leaves_cache() {
    let mut bmp = Bmp180::new(&pole_block());
    assert!(!bmp.measure(0, 2));
    assert_eq!(bmp.get_temperature(), 0);
}

#[test]
fn payload_has_two_fraction_digits() {
    assert_eq!(format_temperature(2116), b"21.16".to_vec());
    assert_eq!(format_temperature(1504), b"15.04".to_vec());
    assert_eq!(format_temperature(0), b"0.00".to_vec());
    assert_eq!(format_temperature(99), b"0.99".to_vec());
    assert_eq!(format_temperature(100), b"1.00".to_vec());
    assert_eq!(format_temperature(12345), b"123.45".to_vec());
    assert_eq!(format_temperature(-5), b"-0.05".to_vec());
    assert_eq!(format_temperature(-98765), b"-987.65".to_vec());
}
