//! What holds of the sensors on every input, proved from their contracts.

use crate::error::{AttributeError, InitFault, SensorError};
use crate::gpio::{Esp32GPIOPin, HardwareAction, Level, PinClaim, Pull};
use crate::hw201::{spec_pin_attribute, spec_reading_name, spec_typed, HW201Sensor};
use crate::null_sensor::NullSensor;
use crate::readings::{spec_generic, spec_number};
use crate::value::Value;
use vstd::prelude::*;

verus! {

/// How the claim of line `pin` ends where the hardware answers the opening
/// with `opened` and, if it is asked, the pull resistor with `pulled`.
pub open spec fn spec_claim_result(pin: i32, pull: Option<Pull>, opened: bool, pulled: bool) -> Result<
    Esp32GPIOPin,
    SensorError,
> {
    if !opened {
        Err(SensorError::HardwareInitError(InitFault::PinDriver))
    } else if pull is Some && !pulled {
        Err(SensorError::HardwareInitError(InitFault::Pull))
    } else {
        Ok(Esp32GPIOPin { pin, pull, sample: None })
    }
}

/// A claim is over after two answers at most. The pull resistor is asked
/// for only on a line that was opened and for which one is wanted, and the
/// claim ends as `spec_claim_result` says.
pub proof fn claim_ends_within_two_steps(pin: i32, pull: Option<Pull>, opened: bool, pulled: bool)
    ensures
        (PinClaim::Opening { pin, pull }).spec_step(opened).spec_action() is Some <==> opened
            && pull is Some,
        (PinClaim::Opening { pin, pull }).spec_step(opened).spec_action() matches Some(action)
            ==> action == (HardwareAction::SetPull { pin, pull: pull.unwrap() }),
        (PinClaim::Opening { pin, pull }).spec_step(opened).spec_step(pulled).spec_outcome()
            == Some(spec_claim_result(pin, pull, opened, pulled)),
{
}

/// With an integer for the line in the configuration, whatever else it
/// holds, construction begins the claim of that line with a pull-up
/// resistor; where the hardware grants both steps, the sensor stands on that
/// line, and its boolean readings hold one name, the reading's, whatever
/// level the line is sampled at.
pub proof fn integer_pin_builds_sensor(attributes: Map<Seq<char>, Value>, pin: i32, level: Level)
    requires
        attributes.contains_key(spec_pin_attribute()),
        attributes[spec_pin_attribute()] == Value::Integer(pin),
    ensures
        HW201Sensor::spec_from_config(attributes) == Ok::<PinClaim, SensorError>(
            PinClaim::Opening { pin, pull: Some(Pull::Up) },
        ),
        (PinClaim::Opening { pin, pull: Some(Pull::Up) }).spec_step(true).spec_step(true)
            == PinClaim::Claimed(Esp32GPIOPin { pin, pull: Some(Pull::Up), sample: None }),
        (HW201Sensor { pin: Esp32GPIOPin { pin, pull: Some(Pull::Up), sample: None } }).spec_observe(
            Some(level),
        ).spec_readings() == Ok::<Seq<(Seq<char>, bool)>, SensorError>(spec_typed(level)),
        spec_typed(level).map_values(|p: (Seq<char>, bool)| p.0) == seq![spec_reading_name()],
{
    assert(spec_typed(level).map_values(|p: (Seq<char>, bool)| p.0) =~= seq![spec_reading_name()]);
}

/// Without an integer for the line in the configuration, be it missing or of
/// another kind, construction fails with a configuration error that names
/// the cause: no claim begins, so no sensor comes of it.
pub proof fn missing_or_malformed_pin_is_refused(attributes: Map<Seq<char>, Value>)
    requires
        !attributes.contains_key(spec_pin_attribute()) || !(attributes[spec_pin_attribute()]
            is Integer),
    ensures
        !attributes.contains_key(spec_pin_attribute()) ==> HW201Sensor::spec_from_config(attributes)
            == Err::<PinClaim, SensorError>(
            SensorError::ConfigurationError(AttributeError::Missing),
        ),
        attributes.contains_key(spec_pin_attribute()) ==> HW201Sensor::spec_from_config(attributes)
            == Err::<PinClaim, SensorError>(
            SensorError::ConfigurationError(AttributeError::NotAnInteger),
        ),
{
}

/// The number of a reading is one where the boolean is true and zero where
/// it is false, and nothing else; so it is for the sensor's one reading at
/// either level of the line.
pub proof fn generic_reading_is_one_or_zero(reading: bool, level: Level)
    ensures
        reading ==> spec_number(reading) == Value::Integer(1),
        !reading ==> spec_number(reading) == Value::Integer(0),
        spec_generic(spec_typed(level)) == seq![
            (spec_reading_name(), spec_number(level == Level::Low)),
        ],
        spec_generic(spec_typed(level))[0].1 == Value::Integer(1) <==> spec_typed(level)[0].1,
        spec_generic(spec_typed(level))[0].1 == Value::Integer(0) <==> !spec_typed(level)[0].1,
{
    assert(spec_generic(spec_typed(level)) =~= seq![
        (spec_reading_name(), spec_number(level == Level::Low)),
    ]);
}

/// Two polls of one sensor between which the line gives the same sample
/// find the sensor in the same state and give the same readings, boolean
/// and numeric.
pub proof fn poll_repeats_on_unchanged_line(sensor: HW201Sensor, sample: Option<Level>)
    ensures
        sensor.spec_observe(sample).spec_observe(sample) == sensor.spec_observe(sample),
        sensor.spec_observe(sample).spec_observe(sample).spec_readings() == sensor.spec_observe(
            sample,
        ).spec_readings(),
        sensor.spec_observe(sample).spec_observe(sample).spec_generic_readings()
            == sensor.spec_observe(sample).spec_generic_readings(),
{
}

/// What a poll gives depends on the sample taken for it and on nothing
/// that an earlier poll of the same sensor saw, and neither poll changes
/// which line the sensor stands on.
pub proof fn poll_depends_on_its_own_sample(
    sensor: HW201Sensor,
    earlier: Option<Level>,
    sample: Option<Level>,
)
    ensures
        sensor.spec_observe(earlier).spec_observe(sample) == sensor.spec_observe(sample),
        sensor.spec_observe(earlier).spec_observe(sample).spec_readings() == sensor.spec_observe(
            sample,
        ).spec_readings(),
        sensor.spec_observe(earlier).pin.pin == sensor.pin.pin,
        sensor.spec_observe(earlier).pin.pull == sensor.pin.pull,
{
}

/// The placeholder is built from any configuration, and its status is a
/// document that is there and holds nothing.
pub proof fn null_sensor_ignores_configuration(
    attributes: Map<Seq<char>, Value>,
    other: Map<Seq<char>, Value>,
)
    ensures
        NullSensor::spec_from_config(attributes) is Ok,
        NullSensor::spec_from_config(attributes) == NullSensor::spec_from_config(other),
        NullSensor::spec_from_config(attributes).unwrap().spec_status() == Some(
            Map::<Seq<char>, Value>::empty(),
        ),
{
}

} // verus!
