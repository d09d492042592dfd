//! The status document through which a sensor tells of itself.

use crate::record::Record;
use crate::value::Value;
use vstd::prelude::*;

verus! {

/// A status document: fields by name.
pub type StatusDocument = Record<Value>;

/// The status of a sensor that has nothing to tell: a document that is
/// there and holds no field.
pub fn empty_status() -> (status: Option<StatusDocument>)
    ensures
        status matches Some(document) && document.pairs() == Seq::<(Seq<char>, Value)>::empty()
            && document@ == Map::<Seq<char>, Value>::empty(),
{
    Some(Record::new())
}

} // verus!
