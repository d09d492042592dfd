//! The values that a configuration record or a status document can hold.

use vstd::prelude::*;

verus! {

/// One value of a key-value bundle.
#[derive(Clone, Debug, PartialEq, Eq)]
pub enum Value {
    Null,
    Bool(bool),
    /// A whole number that fits in 32 bits.
    Integer(i32),
    Text(String),
    /// A value of any other kind: a number that is not whole or does not
    /// fit, a list, a nested bundle.
    Other,
}

impl Value {
    /// The integer that the value is, if it is one.
    pub open spec fn spec_as_integer(&self) -> Option<i32> {
        match self {
            Value::Integer(n) => Some(*n),
            _ => None,
        }
    }

    /// The integer that the value is, if it is one.
    #[verifier::when_used_as_spec(spec_as_integer)]
    pub fn as_integer(&self) -> (n: Option<i32>)
        ensures
            n == self.spec_as_integer(),
    {
        match self {
            Value::Integer(n) => Some(*n),
            _ => None,
        }
    }
}

} // verus!
