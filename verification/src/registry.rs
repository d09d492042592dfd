//! The table in which each module enters the sensor models it offers.

use crate::error::RegistryError;
use crate::record::Record;
use vstd::prelude::*;

verus! {

/// The kinds of sensor that can be built.
#[derive(Clone, Copy, Debug, PartialEq, Eq, Structural)]
pub enum SensorModel {
    /// A digital input on one GPIO line.
    DigitalInput,
    /// A placeholder without hardware and without readings.
    Null,
}

/// The models that were entered, each under the name given for it.
#[derive(Debug)]
pub struct ModelRegistry {
    models: Record<SensorModel>,
}

impl View for ModelRegistry {
    type V = Map<Seq<char>, SensorModel>;

    /// The table as a map from each name to its model.
    closed spec fn view(&self) -> Map<Seq<char>, SensorModel> {
        self.models@
    }
}

impl ModelRegistry {
    /// The table with no model in it.
    pub fn new() -> (registry: Self)
        ensures
            registry@ == Map::<Seq<char>, SensorModel>::empty(),
    {
        ModelRegistry { models: Record::new() }
    }

    /// Enters `model` under `name`. A name that is taken is refused, and the
    /// table stays as it was.
    pub fn register_sensor(&mut self, name: &str, model: SensorModel) -> (entered: Result<
        (),
        RegistryError,
    >)
        ensures
            old(self)@.contains_key(name@) ==> entered == Err::<(), RegistryError>(
                RegistryError::AlreadyRegistered,
            ) && final(self)@ == old(self)@,
            !old(self)@.contains_key(name@) ==> entered == Ok::<(), RegistryError>(())
                && final(self)@ == old(self)@.insert(name@, model),
    {
        if self.models.contains_key(name) {
            Err(RegistryError::AlreadyRegistered)
        } else {
            self.models.insert(name.to_owned(), model);
            Ok(())
        }
    }

    /// The model entered under `name`.
    pub fn model(&self, name: &str) -> (model: Option<SensorModel>)
        ensures
            model == (if self@.contains_key(name@) {
                Some(self@[name@])
            } else {
                None::<SensorModel>
            }),
    {
        match self.models.get(name) {
            Some(model) => Some(*model),
            None => None,
        }
    }

    /// The names and their models in the order in which they were entered.
    pub closed spec fn pairs(&self) -> Seq<(Seq<char>, SensorModel)> {
        self.models.pairs()
    }

    /// The entries in the order in which they were entered, for a caller
    /// that walks all of them.
    pub fn entries(&self) -> (entries: &Vec<(String, SensorModel)>)
        ensures
            entries@.map_values(|e: (String, SensorModel)| (e.0@, e.1)) == self.pairs(),
    {
        self.models.entries()
    }
}

} // verus!
