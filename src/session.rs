use crate::calibration::{Calibration, CALIBRATION_BYTES};
use crate::compensation::{
    compensate_pressure, compensate_temperature, raw_sample, spec_centi_celsius,
    spec_compensate_pressure, spec_fine, spec_raw_sample,
};
use crate::error::Error;
use crate::registers::CHIP_ID;
use vstd::prelude::*;

verus! {

/// The fine temperature that a temperature register sample gives.
pub open spec fn spec_sample_fine(cal: Calibration, temperature_sample: Seq<u8>) -> int {
    spec_fine(spec_raw_sample(temperature_sample), cal)
}

/// The pressure reading of a cycle: the temperature sample is compensated
/// first, and its fine temperature is the one the pressure sample is
/// compensated with.
pub open spec fn spec_reading(
    cal: Calibration,
    temperature_sample: Seq<u8>,
    pressure_sample: Seq<u8>,
) -> Result<i64, Error> {
    spec_compensate_pressure(
        spec_raw_sample(pressure_sample),
        spec_sample_fine(cal, temperature_sample),
        cal,
    )
}

/// Whether a chip identity byte is accepted.
pub fn check_chip_id(chip_id: u8) -> (r: Result<(), Error>)
    ensures
        chip_id == CHIP_ID <==> r is Ok,
        chip_id != CHIP_ID ==> r == Err::<(), Error>(Error::IdentityMismatch),
{
    if chip_id != CHIP_ID {
        Err(Error::IdentityMismatch)
    } else {
        Ok(())
    }
}

/// A BMP280 session that has passed initialization: its identity was
/// checked and its calibration loaded. It keeps the fine temperature of the
/// latest temperature reading and the ground pressure for altitudes.
///
/// Pressures are in Pa as 24.8 fixed-point numbers (Pa times 256), which is
/// kPa times 256000; temperatures are in hundredths of a degree Celsius.
pub struct Bmp280 {
    calibration: Calibration,
    fine: i32,
    ground_pressure: i64,
}

impl Bmp280 {
    /// The calibration loaded at initialization; it never changes afterwards.
    pub closed spec fn spec_calibration(&self) -> Calibration {
        self.calibration
    }

    /// The fine temperature of the latest temperature reading (zero before any).
    pub closed spec fn spec_fine(&self) -> i32 {
        self.fine
    }

    /// The ground pressure that altitudes are measured from.
    pub closed spec fn spec_ground_pressure(&self) -> i64 {
        self.ground_pressure
    }

    /// `next` is this session after a temperature reading of `temperature_sample`.
    pub open spec fn temperature_step(self, next: Bmp280, temperature_sample: Seq<u8>) -> bool {
        &&& next.spec_calibration() == self.spec_calibration()
        &&& next.spec_ground_pressure() == self.spec_ground_pressure()
        &&& next.spec_fine() as int == spec_sample_fine(self.spec_calibration(), temperature_sample)
    }

    /// `next` is this session after a zeroing on the given samples that gave `r`.
    pub open spec fn zero_step(
        self,
        next: Bmp280,
        temperature_sample: Seq<u8>,
        pressure_sample: Seq<u8>,
        r: Result<i64, Error>,
    ) -> bool {
        &&& r == spec_reading(self.spec_calibration(), temperature_sample, pressure_sample)
        &&& next.spec_calibration() == self.spec_calibration()
        &&& next.spec_fine() as int == spec_sample_fine(self.spec_calibration(), temperature_sample)
        &&& next.spec_ground_pressure() == match r {
            Ok(g) => g,
            Err(_) => self.spec_ground_pressure(),
        }
    }

    /// Initializes a session from the chip identity byte and the calibration
    /// block read from the device. It fails with `IdentityMismatch`, and no
    /// session exists, unless the identity is the BMP280's.
    pub fn begin(chip_id: u8, calibration_bytes: &[u8], ground_pressure: i64) -> (r: Result<
        Bmp280,
        Error,
    >)
        requires
            calibration_bytes@.len() == CALIBRATION_BYTES,
        ensures
            chip_id == CHIP_ID <==> r is Ok,
            chip_id != CHIP_ID ==> r == Err::<Bmp280, Error>(Error::IdentityMismatch),
            r matches Ok(s) ==> {
                &&& s.spec_calibration() == Calibration::spec_from_registers(calibration_bytes@)
                &&& s.spec_fine() == 0
                &&& s.spec_ground_pressure() == ground_pressure
            },
    {
        match check_chip_id(chip_id) {
            Err(e) => Err(e),
            Ok(()) => Ok(
                Bmp280 {
                    calibration: Calibration::from_registers(calibration_bytes),
                    fine: 0,
                    ground_pressure,
                },
            ),
        }
    }

    /// Compensates a sample of the temperature register, in hundredths of a
    /// degree Celsius, and keeps its fine temperature for pressure readings.
    pub fn temperature_celsius(&mut self, temperature_sample: &[u8]) -> (r: i32)
        requires
            temperature_sample@.len() == 3,
        ensures
            old(self).temperature_step(*final(self), temperature_sample@),
            r as int == spec_centi_celsius(final(self).spec_fine() as int),
    {
        let reading = compensate_temperature(raw_sample(temperature_sample), &self.calibration);
        self.fine = reading.fine;
        reading.centi_celsius
    }

    /// Reads the pressure of one cycle: the temperature sample is compensated
    /// first, always, and the pressure sample is compensated with the fine
    /// temperature just produced. The result is kPa times 256000.
    pub fn pressure_kpa(&mut self, temperature_sample: &[u8], pressure_sample: &[u8]) -> (r:
        Result<i64, Error>)
        requires
            temperature_sample@.len() == 3,
            pressure_sample@.len() == 3,
        ensures
            old(self).temperature_step(*final(self), temperature_sample@),
            r == spec_compensate_pressure(
                spec_raw_sample(pressure_sample@),
                final(self).spec_fine() as int,
                final(self).spec_calibration(),
            ),
            r == spec_reading(old(self).spec_calibration(), temperature_sample@, pressure_sample@),
    {
        self.temperature_celsius(temperature_sample);
        compensate_pressure(raw_sample(pressure_sample), self.fine, &self.calibration)
    }

    /// Takes the pressure of this cycle as the new ground pressure and
    /// returns it. On a failed reading the ground pressure stays.
    pub fn zero(&mut self, temperature_sample: &[u8], pressure_sample: &[u8]) -> (r: Result<
        i64,
        Error,
    >)
        requires
            temperature_sample@.len() == 3,
            pressure_sample@.len() == 3,
        ensures
            old(self).zero_step(*final(self), temperature_sample@, pressure_sample@, r),
    {
        let r = self.pressure_kpa(temperature_sample, pressure_sample);
        if let Ok(p) = r {
            self.ground_pressure = p;
        }
        r
    }

    /// The ground pressure that altitudes are measured from (Pa times 256).
    pub fn ground_pressure(&self) -> (r: i64)
        ensures
            r == self.spec_ground_pressure(),
    {
        self.ground_pressure
    }

    /// Sets the ground pressure (Pa times 256).
    pub fn set_ground_pressure(&mut self, pressure: i64)
        ensures
            final(self).spec_ground_pressure() == pressure,
            final(self).spec_calibration() == old(self).spec_calibration(),
            final(self).spec_fine() == old(self).spec_fine(),
    {
        self.ground_pressure = pressure;
    }

    /// The fine temperature of the latest temperature reading.
    pub fn fine(&self) -> (r: i32)
        ensures
            r == self.spec_fine(),
    {
        self.fine
    }

    /// The calibration loaded at initialization.
    pub fn calibration(&self) -> (r: Calibration)
        ensures
            r == self.spec_calibration(),
    {
        self.calibration
    }
}

/// Zeroing and then reading the same, unchanged samples gives back exactly
/// the new ground pressure: the pressure ratio behind the altitude is one,
/// so the altitude is zero.
pub proof fn lemma_zero_then_reading(
    before: Bmp280,
    after: Bmp280,
    temperature_sample: Seq<u8>,
    pressure_sample: Seq<u8>,
    r: Result<i64, Error>,
)
    requires
        before.zero_step(after, temperature_sample, pressure_sample, r),
        r is Ok,
    ensures
        spec_reading(after.spec_calibration(), temperature_sample, pressure_sample) == Ok::<
            i64,
            Error,
        >(after.spec_ground_pressure()),
{
}

} // verus!
