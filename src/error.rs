use vstd::prelude::*;

verus! {

/// Failures that the sensor logic reports. Bus failures belong to the
/// transport and are reported there.
#[derive(Clone, Copy, Debug, PartialEq, Eq, Structural)]
pub enum Error {
    /// The chip identity register did not hold the BMP280's identity byte.
    IdentityMismatch,
    /// The calibration made the pressure compensation divide by zero.
    DivisionByZero,
}

impl Error {
    /// A short name of the failure.
    pub fn description(&self) -> (r: &'static str)
        ensures
            *self == Error::IdentityMismatch ==> r@ == "IdentityMismatch"@,
            *self == Error::DivisionByZero ==> r@ == "DivisionByZero"@,
    {
        match self {
            Error::IdentityMismatch => "IdentityMismatch",
            Error::DivisionByZero => "DivisionByZero",
        }
    }
}

} // verus!
