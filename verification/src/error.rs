//! What can go wrong, and the short reason given for each.

use vstd::prelude::*;

verus! {

/// Why a named attribute could not be read as an integer.
#[derive(Clone, Copy, Debug, PartialEq, Eq, Structural)]
pub enum AttributeError {
    /// The record holds no attribute of that name.
    Missing,
    /// The attribute is there and is no integer.
    NotAnInteger,
}

/// The step of claiming a line at which the hardware refused.
#[derive(Clone, Copy, Debug, PartialEq, Eq, Structural)]
pub enum InitFault {
    /// The line could not be opened for input.
    PinDriver,
    /// The line is open and its pull resistor could not be set.
    Pull,
}

/// Why a sensor could not be built or polled.
#[derive(Clone, Copy, Debug, PartialEq, Eq, Structural)]
pub enum SensorError {
    /// The configuration lacks what the sensor needs.
    ConfigurationError(AttributeError),
    /// The hardware refused while the line was claimed.
    HardwareInitError(InitFault),
    /// The line could not be read.
    HardwareReadError,
}

/// Why a model could not be entered in a registry.
#[derive(Clone, Copy, Debug, PartialEq, Eq, Structural)]
pub enum RegistryError {
    /// The name already stands for a model.
    AlreadyRegistered,
}

impl SensorError {
    /// The reason as text, one fixed sentence for each way to fail.
    pub open spec fn spec_reason(&self) -> Seq<char> {
        match self {
            SensorError::ConfigurationError(_) => "Pin not found"@,
            SensorError::HardwareInitError(InitFault::PinDriver) => "Failed to create pin driver"@,
            SensorError::HardwareInitError(InitFault::Pull) => "Failed to set pull"@,
            SensorError::HardwareReadError => "Failed to read pin"@,
        }
    }

    /// The reason as text.
    pub fn reason(&self) -> (text: &'static str)
        ensures
            text@ == self.spec_reason(),
    {
        match self {
            SensorError::ConfigurationError(_) => "Pin not found",
            SensorError::HardwareInitError(InitFault::PinDriver) => "Failed to create pin driver",
            SensorError::HardwareInitError(InitFault::Pull) => "Failed to set pull",
            SensorError::HardwareReadError => "Failed to read pin",
        }
    }
}

} // verus!
