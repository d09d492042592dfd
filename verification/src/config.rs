//! The configuration record that a sensor is built from.

use crate::error::AttributeError;
use crate::record::Record;
use crate::value::Value;
use vstd::prelude::*;

verus! {

/// The attributes that the host hands to a sensor's constructor.
pub type ConfigRecord = Record<Value>;

/// A resource that a sensor is declared to depend on, by its name.
#[derive(Clone, Debug, PartialEq, Eq)]
pub struct Dependency {
    pub name: String,
}

/// The attribute `name` of `attributes` read as an integer: missing where no
/// attribute has that name, refused where it has one that is no integer.
pub open spec fn spec_integer_attribute(attributes: Map<Seq<char>, Value>, name: Seq<char>) -> Result<
    i32,
    AttributeError,
> {
    if !attributes.contains_key(name) {
        Err(AttributeError::Missing)
    } else {
        match attributes[name] {
            Value::Integer(n) => Ok(n),
            _ => Err(AttributeError::NotAnInteger),
        }
    }
}

/// Reads the attribute `name` of `record` as an integer.
pub fn integer_attribute(record: &ConfigRecord, name: &str) -> (read: Result<i32, AttributeError>)
    ensures
        read == spec_integer_attribute(record@, name@),
{
    match record.get(name) {
        None => Err(AttributeError::Missing),
        Some(value) => match value.as_integer() {
            Some(n) => Ok(n),
            None => Err(AttributeError::NotAnInteger),
        },
    }
}

} // verus!
