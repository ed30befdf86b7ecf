//! Driver core for the BMP280 barometric pressure and temperature sensor.
//!
//! The library holds the sensor's register map, decodes the calibration
//! block, runs the datasheet's fixed-point compensation and keeps the state of
//! a sensor session. Bus transactions are left to the caller: every operation
//! that needs data from the device takes the bytes that were read.

mod bytes;
pub mod calibration;
pub mod compensation;
pub mod error;
pub mod registers;
pub mod session;

pub use calibration::{Calibration, CALIBRATION_BYTES};
pub use compensation::{compensate_pressure, compensate_temperature, raw_sample, TemperatureReading};
pub use error::Error;
pub use registers::{control_command, Register, CALIBRATION_WORDS, CHIP_ID};
pub use session::{check_chip_id, Bmp280};
