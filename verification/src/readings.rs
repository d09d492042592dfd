//! What a poll gives back: readings by name, as booleans or as numbers.

use crate::record::Record;
use crate::value::Value;
use vstd::prelude::*;

verus! {

/// Readings by name, each a boolean.
pub type TypedReadings = Record<bool>;

/// Readings by name, each a value that any kind of sensor can give.
pub type GenericReadings = Record<Value>;

/// A boolean reading as a number: one for true, zero for false.
pub open spec fn spec_number(reading: bool) -> Value {
    if reading {
        Value::Integer(1)
    } else {
        Value::Integer(0)
    }
}

/// Boolean readings as numbers, name by name and in the same order.
pub open spec fn spec_generic(typed: Seq<(Seq<char>, bool)>) -> Seq<(Seq<char>, Value)> {
    typed.map_values(|p: (Seq<char>, bool)| (p.0, spec_number(p.1)))
}

/// A boolean reading as a number: one for true, zero for false.
#[verifier::when_used_as_spec(spec_number)]
pub fn number(reading: bool) -> (value: Value)
    ensures
        value == spec_number(reading),
{
    if reading {
        Value::Integer(1)
    } else {
        Value::Integer(0)
    }
}

/// Gives every boolean reading of `typed` as a number under the same name.
pub fn generic_readings(typed: &TypedReadings) -> (generic: GenericReadings)
    ensures
        generic.pairs() == spec_generic(typed.pairs()),
        generic@ == typed@.map_values(|reading: bool| spec_number(reading)),
{
    proof {
        use_type_invariant(typed);
    }
    let entries = typed.entries();
    let mut generic: GenericReadings = Record::new();
    let mut i: usize = 0;
    while i < entries.len()
        invariant
            i <= entries.len(),
            typed.wf(),
            entries@.map_values(|e: (String, bool)| (e.0@, e.1)) == typed.pairs(),
            generic.pairs() == spec_generic(typed.pairs().take(i as int)),
        decreases entries.len() - i,
    {
        let name = entries[i].0.clone();
        let value = number(entries[i].1);
        proof {
            let done = typed.pairs().take(i as int);
            assert(typed.pairs()[i as int] == (name@, entries[i as int].1));
            assert(typed.names()[i as int] == name@);
            assert forall|j: int| 0 <= j < generic.pairs().len() implies (#[trigger] generic.pairs()[j]).0
                != name@ by {
                assert(generic.pairs()[j].0 == done[j].0);
                assert(typed.names()[j] == done[j].0);
            }
            generic.lemma_absent_from_view(name@);
            assert(typed.pairs().take(i + 1) =~= done.push(typed.pairs()[i as int]));
            assert(spec_generic(done.push(typed.pairs()[i as int])) =~= spec_generic(done).push(
                (name@, value),
            ));
        }
        generic.insert(name, value);
        i += 1;
    }
    proof {
        assert(typed.pairs().take(i as int) =~= typed.pairs());
        use_type_invariant(&generic);
        assert(generic.names() =~= typed.names());
        assert forall|k: Seq<char>| #[trigger] generic@.contains_key(k) implies generic@[k]
            == spec_number(typed@[k]) by {
            let j = typed.names().index_of(k);
            assert(typed.names()[j] == k);
        }
        assert(generic@ =~= typed@.map_values(|reading: bool| spec_number(reading)));
    }
    generic
}

} // verus!
