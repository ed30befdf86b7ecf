use vstd::prelude::*;

verus! {

/// Register address of the chip identity byte.
pub const CHIP_ID_ADDRESS: u8 = 0xD0;

/// The identity byte that a BMP280 reports.
pub const CHIP_ID: u8 = 0x58;

/// Control register setting: normal mode, 16x oversampling of pressure and temperature.
pub const CONTROL_NORMAL_MODE: u8 = 0x3F;

/// Number of 16-bit calibration words (T1..T3, P1..P9).
pub const CALIBRATION_WORDS: usize = 12;

/// The registers of the BMP280 that the driver addresses.
#[derive(Clone, Copy, Debug, PartialEq, Eq, Structural)]
pub enum Register {
    DigT1,
    DigT2,
    DigT3,
    DigP1,
    DigP2,
    DigP3,
    DigP4,
    DigP5,
    DigP6,
    DigP7,
    DigP8,
    DigP9,
    ChipId,
    Version,
    SoftReset,
    /// Start of the humidity calibration block (0xE1..0xF0).
    Cal26,
    Control,
    Config,
    PressureData,
    TemperatureData,
}

impl Register {
    /// The bus address of the register.
    pub open spec fn spec_address(self) -> u8 {
        match self {
            Register::DigT1 => 0x88,
            Register::DigT2 => 0x8A,
            Register::DigT3 => 0x8C,
            Register::DigP1 => 0x8E,
            Register::DigP2 => 0x90,
            Register::DigP3 => 0x92,
            Register::DigP4 => 0x94,
            Register::DigP5 => 0x96,
            Register::DigP6 => 0x98,
            Register::DigP7 => 0x9A,
            Register::DigP8 => 0x9C,
            Register::DigP9 => 0x9E,
            Register::ChipId => 0xD0,
            Register::Version => 0xD1,
            Register::SoftReset => 0xE0,
            Register::Cal26 => 0xE1,
            Register::Control => 0xF4,
            Register::Config => 0xF5,
            Register::PressureData => 0xF7,
            Register::TemperatureData => 0xFA,
        }
    }

    /// The bus address of the register.
    pub fn address(&self) -> (r: u8)
        ensures
            r == self.spec_address(),
    {
        match self {
            Register::DigT1 => 0x88,
            Register::DigT2 => 0x8A,
            Register::DigT3 => 0x8C,
            Register::DigP1 => 0x8E,
            Register::DigP2 => 0x90,
            Register::DigP3 => 0x92,
            Register::DigP4 => 0x94,
            Register::DigP5 => 0x96,
            Register::DigP6 => 0x98,
            Register::DigP7 => 0x9A,
            Register::DigP8 => 0x9C,
            Register::DigP9 => 0x9E,
            Register::ChipId => 0xD0,
            Register::Version => 0xD1,
            Register::SoftReset => 0xE0,
            Register::Cal26 => 0xE1,
            Register::Control => 0xF4,
            Register::Config => 0xF5,
            Register::PressureData => 0xF7,
            Register::TemperatureData => 0xFA,
        }
    }

    /// The register of the `i`-th calibration word, in the order T1, T2, T3, P1..P9.
    pub open spec fn spec_calibration(i: int) -> Register {
        if i == 0 {
            Register::DigT1
        } else if i == 1 {
            Register::DigT2
        } else if i == 2 {
            Register::DigT3
        } else if i == 3 {
            Register::DigP1
        } else if i == 4 {
            Register::DigP2
        } else if i == 5 {
            Register::DigP3
        } else if i == 6 {
            Register::DigP4
        } else if i == 7 {
            Register::DigP5
        } else if i == 8 {
            Register::DigP6
        } else if i == 9 {
            Register::DigP7
        } else if i == 10 {
            Register::DigP8
        } else {
            Register::DigP9
        }
    }

    /// The register of the `i`-th calibration word, in the order the words are
    /// read from the device: T1, T2, T3, P1..P9.
    pub fn calibration(i: usize) -> (r: Register)
        requires
            i < CALIBRATION_WORDS,
        ensures
            r == Self::spec_calibration(i as int),
            r.spec_address() == 0x88 + 2 * i,
    {
        if i == 0 {
            Register::DigT1
        } else if i == 1 {
            Register::DigT2
        } else if i == 2 {
            Register::DigT3
        } else if i == 3 {
            Register::DigP1
        } else if i == 4 {
            Register::DigP2
        } else if i == 5 {
            Register::DigP3
        } else if i == 6 {
            Register::DigP4
        } else if i == 7 {
            Register::DigP5
        } else if i == 8 {
            Register::DigP6
        } else if i == 9 {
            Register::DigP7
        } else if i == 10 {
            Register::DigP8
        } else {
            Register::DigP9
        }
    }
}

impl<'a> From<&'a Register> for u8 {
    /// The bus address of the register.
    fn from(reg: &'a Register) -> (r: u8) {
        reg.address()
    }
}

impl<'a> vstd::std_specs::convert::FromSpecImpl<&'a Register> for u8 {
    open spec fn obeys_from_spec() -> bool {
        true
    }

    open spec fn from_spec(reg: &'a Register) -> u8 {
        reg.spec_address()
    }
}

/// The bytes to write to the control register to start normal operation.
pub fn control_command() -> (r: Vec<u8>)
    ensures
        r@ == seq![Register::Control.spec_address(), CONTROL_NORMAL_MODE],
{
    vec![u8::from(&Register::Control), CONTROL_NORMAL_MODE]
}

} // verus!
