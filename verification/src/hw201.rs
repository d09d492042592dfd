//! The digital input sensor: one GPIO line polled for its level.

use crate::config::{integer_attribute, spec_integer_attribute, ConfigRecord, Dependency};
use crate::error::{RegistryError, SensorError};
use crate::gpio::{Esp32GPIOPin, Level, PinClaim, Pull};
use crate::readings::{generic_readings, spec_generic, spec_number, GenericReadings, TypedReadings};
use crate::record::Record;
use crate::registry::{ModelRegistry, SensorModel};
use crate::status::{empty_status, StatusDocument};
use crate::value::Value;
use vstd::prelude::*;

verus! {

/// A sensor that reports the level of one input line.
#[derive(Clone, Copy, Debug, PartialEq, Eq, Structural)]
pub struct HW201Sensor {
    pub pin: Esp32GPIOPin,
}

/// The name under which the sensor is entered in a registry.
pub open spec fn spec_model_name() -> Seq<char> {
    "hw201"@
}

/// The name of the attribute that gives the line's number.
pub open spec fn spec_pin_attribute() -> Seq<char> {
    "pin"@
}

/// The name of the one reading.
pub open spec fn spec_reading_name() -> Seq<char> {
    "pin_value"@
}

/// The name under which the sensor is entered in a registry.
pub fn model_name() -> (name: &'static str)
    ensures
        name@ == spec_model_name(),
{
    "hw201"
}

/// The name of the attribute that gives the line's number.
pub fn pin_attribute() -> (name: &'static str)
    ensures
        name@ == spec_pin_attribute(),
{
    "pin"
}

/// The name of the one reading.
pub fn reading_name() -> (name: &'static str)
    ensures
        name@ == spec_reading_name(),
{
    "pin_value"
}

/// Enters the sensor in `registry` under its name. Refused only where that
/// name is taken.
pub fn register_models(registry: &mut ModelRegistry) -> (entered: Result<(), RegistryError>)
    ensures
        old(registry)@.contains_key(spec_model_name()) ==> entered == Err::<(), RegistryError>(
            RegistryError::AlreadyRegistered,
        ) && final(registry)@ == old(registry)@,
        !old(registry)@.contains_key(spec_model_name()) ==> entered == Ok::<(), RegistryError>(())
            && final(registry)@ == old(registry)@.insert(
            spec_model_name(),
            SensorModel::DigitalInput,
        ),
{
    registry.register_sensor(model_name(), SensorModel::DigitalInput)
}

/// The readings for a line sampled at `level`: the one name, true for low.
pub open spec fn spec_typed(level: Level) -> Seq<(Seq<char>, bool)> {
    seq![(spec_reading_name(), level == Level::Low)]
}

impl HW201Sensor {
    /// The way a sensor is built from `attributes`: without an integer
    /// attribute for the line there is a configuration error and the
    /// hardware is left alone; with one, the claim of that line begins,
    /// with a pull-up resistor.
    pub open spec fn spec_from_config(attributes: Map<Seq<char>, Value>) -> Result<
        PinClaim,
        SensorError,
    > {
        match spec_integer_attribute(attributes, spec_pin_attribute()) {
            Ok(pin) => Ok(PinClaim::Opening { pin, pull: Some(Pull::Up) }),
            Err(cause) => Err(SensorError::ConfigurationError(cause)),
        }
    }

    /// Reads the line's number from `cfg` and begins the claim of that line.
    /// The dependencies play no part.
    pub fn from_config(cfg: ConfigRecord, _deps: Vec<Dependency>) -> (begun: Result<
        PinClaim,
        SensorError,
    >)
        ensures
            begun == Self::spec_from_config(cfg@),
    {
        match integer_attribute(&cfg, pin_attribute()) {
            Ok(pin) => Ok(Esp32GPIOPin::new(pin, Some(Pull::Up))),
            Err(cause) => Err(SensorError::ConfigurationError(cause)),
        }
    }

    /// The sensor on a line that is claimed.
    pub fn new(pin: Esp32GPIOPin) -> (sensor: Self)
        ensures
            sensor.pin == pin,
    {
        HW201Sensor { pin }
    }

    /// The sensor after a read of the line gave `sample`.
    pub open spec fn spec_observe(self, sample: Option<Level>) -> Self {
        HW201Sensor { pin: Esp32GPIOPin { sample, ..self.pin } }
    }

    /// Records what a read of the line gave, before a poll: its level, or
    /// nothing where the read failed.
    pub fn observe(&mut self, sample: Option<Level>)
        ensures
            *final(self) == old(self).spec_observe(sample),
    {
        self.pin.observe(sample);
    }

    /// What a poll gives: the read fault where the line could not be read,
    /// else the one reading, true for a low line.
    pub open spec fn spec_readings(&self) -> Result<Seq<(Seq<char>, bool)>, SensorError> {
        match self.pin.sample {
            Some(level) => Ok(spec_typed(level)),
            None => Err(SensorError::HardwareReadError),
        }
    }

    /// What a poll gives as numbers: the readings of `spec_readings`, one
    /// for true and zero for false.
    pub open spec fn spec_generic_readings(&self) -> Result<Seq<(Seq<char>, Value)>, SensorError> {
        match self.spec_readings() {
            Ok(pairs) => Ok(spec_generic(pairs)),
            Err(fault) => Err(fault),
        }
    }

    /// The reading of the line as a boolean under its name.
    pub fn get_readings(&self) -> (readings: Result<TypedReadings, SensorError>)
        ensures
            match (readings, self.spec_readings()) {
                (Ok(typed), Ok(pairs)) => typed.pairs() == pairs && typed@ == map![
                    spec_reading_name() => self.pin.is_low()
                ],
                (Err(error), Err(fault)) => error == fault,
                _ => false,
            },
    {
        match self.pin.level() {
            Err(error) => Err(error),
            Ok(_) => {
                let mut readings: TypedReadings = Record::new();
                readings.insert(reading_name().to_owned(), self.pin.is_low());
                Ok(readings)
            },
        }
    }

    /// The reading of the line as a number under its name: one where the
    /// boolean reading is true, zero where it is false. The sensor stays as
    /// it was.
    pub fn get_generic_readings(&mut self) -> (readings: Result<GenericReadings, SensorError>)
        ensures
            *final(self) == *old(self),
            match (readings, old(self).spec_generic_readings()) {
                (Ok(generic), Ok(pairs)) => generic.pairs() == pairs && generic@ == map![
                    spec_reading_name() => spec_number(old(self).pin.is_low())
                ],
                (Err(error), Err(fault)) => error == fault,
                _ => false,
            },
    {
        match self.get_readings() {
            Err(error) => Err(error),
            Ok(typed) => {
                let generic = generic_readings(&typed);
                proof {
                    assert(generic@ =~= map![
                        spec_reading_name() => spec_number(old(self).pin.is_low())
                    ]);
                }
                Ok(generic)
            },
        }
    }

    /// The status of the sensor: a document that is there and holds nothing.
    pub fn get_status(&self) -> (status: Option<StatusDocument>)
        ensures
            status matches Some(document) && document.pairs() == Seq::<(Seq<char>, Value)>::empty()
                && document@ == Map::<Seq<char>, Value>::empty(),
    {
        empty_status()
    }
}

} // verus!
