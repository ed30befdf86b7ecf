use bmp280::{compensate_pressure, compensate_temperature, raw_sample, Calibration, Error};

fn example_calibration() -> Calibration {
    Calibration {
        dig_t1: 27504,
        dig_t2: 26435,
        dig_t3: -1000,
        dig_p1: 36477,
        dig_p2: -10685,
        dig_p3: 3024,
        dig_p4: 2855,
        dig_p5: 140,
        dig_p6: -7,
        dig_p7: 15500,
        dig_p8: -14600,
        dig_p9: 6000,
    }
}

#[test]
fn worked_example_temperature() {
    let r = compensate_temperature(519888, &example_calibration());
    assert_eq!(r.fine, 128422);
    assert_eq!(r.centi_celsius, 2508);
    let celsius = r.centi_celsius as f64 / 100.0;
    assert!((celsius - 25.08).abs() < 1e-9);
}

#[test]
fn worked_example_pressure() {
    let cal = example_calibration();
    let t = compensate_temperature(519888, &cal);
    let p = compensate_pressure(415148, t.fine, &cal).unwrap();
    assert_eq!(p, 25767233);
    let kpa = p as f64 / 256000.0;
    assert!((kpa - 100.65).abs() < 0.01);
}

#[test]
fn compensation_is_repeatable() {
    let cal = example_calibration();
    let a = compensate_temperature(519888, &cal);
    let b = compensate_temperature(519888, &cal);
    assert_eq!(a, b);
    assert_eq!(
        compensate_pressure(415148, a.fine, &cal),
        compensate_pressure(415148, b.fine, &cal)
    );
}

#[test]
fn pressure_depends_on_fine() {
    let cal = example_calibration();
    assert_eq!(compensate_pressure(415148, 0, &cal), Ok(24786192));
    assert_eq!(compensate_pressure(0, 128422, &cal), Ok(44339071));
    assert_eq!(compensate_pressure(1048575, 128422, &cal), Ok(-1697504));
}

#[test]
fn zero_p1_is_division_by_zero() {
    let mut cal = example_calibration();
    cal.dig_p1 = 0;
    assert_eq!(compensate_pressure(415148, 128422, &cal), Err(Error::DivisionByZero));
    assert_eq!(compensate_pressure(0, 0, &cal), Err(Error::DivisionByZero));
}

#[test]
fn all_zero_calibration_is_division_by_zero() {
    let cal = Calibration::default();
    assert_eq!(cal.dig_t1, 0);
    assert_eq!(cal.dig_p9, 0);
    let t = compensate_temperature(519888, &cal);
    assert_eq!(t.fine, 0);
    assert_eq!(t.centi_celsius, 0);
    assert_eq!(compensate_pressure(415148, t.fine, &cal), Err(Error::DivisionByZero));
}

#[test]
fn extreme_calibration_wraps_without_panic() {
    let cal = Calibration {
        dig_t1: 0,
        dig_t2: i16::MIN,
        dig_t3: i16::MIN,
        dig_p1: u16::MAX,
        dig_p2: i16::MIN,
        dig_p3: i16::MAX,
        dig_p4: i16::MIN,
        dig_p5: i16::MAX,
        dig_p6: i16::MIN,
        dig_p7: i16::MAX,
        dig_p8: i16::MIN,
        dig_p9: i16::MAX,
    };
    let t = compensate_temperature(0xF_FFFF, &cal);
    let _ = compensate_pressure(0, t.fine, &cal);
    let _ = compensate_pressure(0xF_FFFF, i32::MIN, &cal);
    let _ = compensate_pressure(0, i32::MAX, &cal);
}

#[test]
fn raw_sample_drops_low_bits() {
    assert_eq!(raw_sample(&[0x7E, 0xED, 0x0F]), 519888);
    assert_eq!(raw_sample(&[0x65, 0x5A, 0xC0]), 415148);
    assert_eq!(raw_sample(&[0xFF, 0xFF, 0xFF]), 0xF_FFFF);
    assert_eq!(raw_sample(&[0x00, 0x00, 0x0F]), 0);
    assert_eq!(raw_sample(&[0x00, 0x01, 0x00]), 16);
}
