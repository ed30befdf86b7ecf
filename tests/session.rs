use bmp280::{check_chip_id, Bmp280, Calibration, Error};

fn calibration_bytes() -> Vec<u8> {
    let words: [i32; 12] = [
        27504, 26435, -1000, 36477, -10685, 3024, 2855, 140, -7, 15500, -14600, 6000,
    ];
    let mut bytes = Vec::new();
    for w in words.iter() {
        let u = (*w as u32) & 0xFFFF;
        bytes.push((u & 0xFF) as u8);
        bytes.push((u >> 8) as u8);
    }
    bytes
}

const TEMPERATURE_SAMPLE: [u8; 3] = [0x7E, 0xED, 0x00];
const PRESSURE_SAMPLE: [u8; 3] = [0x65, 0x5A, 0xC0];

fn ready_session() -> Bmp280 {
    Bmp280::begin(0x58, &calibration_bytes(), 0).unwrap()
}

#[test]
fn wrong_chip_id_is_identity_mismatch() {
    assert_eq!(check_chip_id(0x60), Err(Error::IdentityMismatch));
    assert_eq!(check_chip_id(0x58), Ok(()));
    let r = Bmp280::begin(0x60, &calibration_bytes(), 0);
    assert!(matches!(r, Err(Error::IdentityMismatch)));
    let r = Bmp280::begin(0x00, &calibration_bytes(), 0);
    assert!(matches!(r, Err(Error::IdentityMismatch)));
}

#[test]
fn begin_loads_calibration() {
    let s = Bmp280::begin(0x58, &calibration_bytes(), 1234).unwrap();
    let cal: Calibration = s.calibration();
    assert_eq!(cal.dig_t1, 27504);
    assert_eq!(cal.dig_p9, 6000);
    assert_eq!(s.fine(), 0);
    assert_eq!(s.ground_pressure(), 1234);
}

#[test]
fn temperature_reading_keeps_fine() {
    let mut s = ready_session();
    assert_eq!(s.temperature_celsius(&TEMPERATURE_SAMPLE), 2508);
    assert_eq!(s.fine(), 128422);
}

#[test]
fn pressure_reading_refreshes_temperature_first() {
    let mut s = ready_session();
    // A stale fine temperature from another cycle must not be used.
    s.temperature_celsius(&[0x10, 0x00, 0x00]);
    let stale = s.fine();
    assert_ne!(stale, 128422);
    let p = s.pressure_kpa(&TEMPERATURE_SAMPLE, &PRESSURE_SAMPLE);
    assert_eq!(p, Ok(25767233));
    assert_eq!(s.fine(), 128422);
    let mut fresh = ready_session();
    assert_eq!(fresh.pressure_kpa(&TEMPERATURE_SAMPLE, &PRESSURE_SAMPLE), p);
}

#[test]
fn zero_then_same_reading_gives_ground() {
    let mut s = ready_session();
    let g = s.zero(&TEMPERATURE_SAMPLE, &PRESSURE_SAMPLE).unwrap();
    assert_eq!(g, 25767233);
    assert_eq!(s.ground_pressure(), g);
    let p = s.pressure_kpa(&TEMPERATURE_SAMPLE, &PRESSURE_SAMPLE).unwrap();
    assert_eq!(p, s.ground_pressure());
    let pa = p as f64 / 256.0;
    let sea = s.ground_pressure() as f64 / 256.0;
    let altitude = 44330.0 * (1.0 - (pa / sea).powf(0.1903));
    assert!(altitude.abs() < 1e-3);
}

#[test]
fn failed_zero_keeps_ground() {
    let mut bytes = calibration_bytes();
    bytes[6] = 0;
    bytes[7] = 0;
    let mut s = Bmp280::begin(0x58, &bytes, 777).unwrap();
    assert_eq!(
        s.zero(&TEMPERATURE_SAMPLE, &PRESSURE_SAMPLE),
        Err(Error::DivisionByZero)
    );
    assert_eq!(s.ground_pressure(), 777);
    assert_eq!(s.fine(), 128422);
}

#[test]
fn set_ground_pressure_is_kept() {
    let mut s = ready_session();
    s.set_ground_pressure(25_600_000);
    assert_eq!(s.ground_pressure(), 25_600_000);
}
