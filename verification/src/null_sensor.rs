//! The placeholder sensor: no hardware, no readings.

use crate::config::{ConfigRecord, Dependency};
use crate::error::{RegistryError, SensorError};
use crate::readings::GenericReadings;
use crate::record::Record;
use crate::registry::{ModelRegistry, SensorModel};
use crate::status::{empty_status, StatusDocument};
use crate::value::Value;
use vstd::prelude::*;

verus! {

/// A sensor that is bound to nothing and reads nothing.
#[derive(Clone, Copy, Debug, PartialEq, Eq, Structural)]
pub struct NullSensor {}

/// The name under which the placeholder is entered in a registry.
pub open spec fn spec_model_name() -> Seq<char> {
    "my_sensor"@
}

/// The name under which the placeholder is entered in a registry.
pub fn model_name() -> (name: &'static str)
    ensures
        name@ == spec_model_name(),
{
    "my_sensor"
}

/// Enters the placeholder in `registry` under its name. Refused only where
/// that name is taken.
pub fn register_models(registry: &mut ModelRegistry) -> (entered: Result<(), RegistryError>)
    ensures
        old(registry)@.contains_key(spec_model_name()) ==> entered == Err::<(), RegistryError>(
            RegistryError::AlreadyRegistered,
        ) && final(registry)@ == old(registry)@,
        !old(registry)@.contains_key(spec_model_name()) ==> entered == Ok::<(), RegistryError>(())
            && final(registry)@ == old(registry)@.insert(spec_model_name(), SensorModel::Null),
{
    registry.register_sensor(model_name(), SensorModel::Null)
}

impl NullSensor {
    /// The placeholder as it is built from any attributes.
    pub open spec fn spec_from_config(attributes: Map<Seq<char>, Value>) -> Result<Self, SensorError> {
        Ok(NullSensor {  })
    }

    /// The status of the placeholder: there, and without fields.
    pub open spec fn spec_status(&self) -> Option<Map<Seq<char>, Value>> {
        Some(Map::empty())
    }

    /// Builds the placeholder. Neither the configuration nor the
    /// dependencies are looked at, so this never fails.
    pub fn from_config(_cfg: ConfigRecord, _deps: Vec<Dependency>) -> (built: Result<Self, SensorError>)
        ensures
            built == Self::spec_from_config(_cfg@),
    {
        Ok(NullSensor {  })
    }

    /// The readings of the placeholder: none.
    pub fn get_generic_readings(&mut self) -> (readings: Result<GenericReadings, SensorError>)
        ensures
            *final(self) == *old(self),
            readings matches Ok(generic) && generic.pairs() == Seq::<(Seq<char>, Value)>::empty()
                && generic@ == Map::<Seq<char>, Value>::empty(),
    {
        Ok(Record::new())
    }

    /// The status of the placeholder: a document that is there and holds
    /// nothing.
    pub fn get_status(&self) -> (status: Option<StatusDocument>)
        ensures
            status matches Some(document) && document.pairs() == Seq::<(Seq<char>, Value)>::empty()
                && Some(document@) == self.spec_status(),
    {
        empty_status()
    }
}

} // verus!
