//! A key-value bundle with text keys, each key held once.

use vstd::prelude::*;

verus! {

/// A bundle of named values. No name occurs twice; the entries keep the order
/// in which their names first came in.
#[derive(Debug)]
pub struct Record<V> {
    entries: Vec<(String, V)>,
}

impl<V> View for Record<V> {
    type V = Map<Seq<char>, V>;

    /// The bundle as a map from each name to its value.
    open spec fn view(&self) -> Map<Seq<char>, V> {
        Map::new(
            |name: Seq<char>| self.names().contains(name),
            |name: Seq<char>| self.values()[self.names().index_of(name)],
        )
    }
}

impl<V> Record<V> {
    /// The entries in order, each name as its characters.
    pub closed spec fn pairs(&self) -> Seq<(Seq<char>, V)> {
        self.entries@.map_values(|e: (String, V)| (e.0@, e.1))
    }

    /// The names in order.
    pub open spec fn names(&self) -> Seq<Seq<char>> {
        self.pairs().map_values(|p: (Seq<char>, V)| p.0)
    }

    /// The values in the order of their names.
    pub open spec fn values(&self) -> Seq<V> {
        self.pairs().map_values(|p: (Seq<char>, V)| p.1)
    }

    /// Every value of this type holds each name at most once.
    #[verifier::type_invariant]
    pub open spec fn wf(&self) -> bool {
        self.names().no_duplicates()
    }

    /// The entry at `i` is what the map holds under that entry's name.
    pub proof fn lemma_entry_in_view(&self, i: int)
        requires
            self.wf(),
            0 <= i < self.pairs().len(),
        ensures
            self@.contains_key(self.pairs()[i].0),
            self@[self.pairs()[i].0] == self.pairs()[i].1,
    {
        let name = self.pairs()[i].0;
        assert(self.names()[i] == name);
        let j = self.names().index_of(name);
        assert(self.names()[j] == name);
        assert(j == i);
    }

    /// A name that no entry carries is no key of the map.
    pub proof fn lemma_absent_from_view(&self, name: Seq<char>)
        requires
            forall|j: int| 0 <= j < self.pairs().len() ==> (#[trigger] self.pairs()[j]).0 != name,
        ensures
            !self@.contains_key(name),
    {
        if self.names().contains(name) {
            let j = self.names().index_of(name);
            assert(self.names()[j] == name);
            assert(self.pairs()[j].0 == name);
        }
    }

    /// The empty bundle.
    pub fn new() -> (record: Self)
        ensures
            record.pairs() == Seq::<(Seq<char>, V)>::empty(),
            record@ == Map::<Seq<char>, V>::empty(),
    {
        let record = Record { entries: Vec::new() };
        proof {
            assert(record.pairs() =~= Seq::<(Seq<char>, V)>::empty());
            assert(record@ =~= Map::<Seq<char>, V>::empty());
        }
        record
    }

    /// How many names the bundle holds.
    pub fn len(&self) -> (n: usize)
        ensures
            n == self.pairs().len(),
            self@.dom().finite(),
            n == self@.len(),
    {
        proof {
            use_type_invariant(self);
            self.names().unique_seq_to_set();
            assert(self@.dom() =~= self.names().to_set());
        }
        self.entries.len()
    }

    /// Whether the bundle holds no name.
    pub fn is_empty(&self) -> (empty: bool)
        ensures
            empty == (self.pairs().len() == 0),
    {
        self.entries.len() == 0
    }

    /// The entries in order, for a caller that walks all of them.
    pub fn entries(&self) -> (entries: &Vec<(String, V)>)
        ensures
            entries@.map_values(|e: (String, V)| (e.0@, e.1)) == self.pairs(),
    {
        &self.entries
    }

    /// Where `name` stands among the entries, if it does.
    fn position(&self, name: &str) -> (at: Option<usize>)
        ensures
            match at {
                Some(i) => i < self.pairs().len() && self.pairs()[i as int].0 == name@,
                None => forall|j: int|
                    0 <= j < self.pairs().len() ==> (#[trigger] self.pairs()[j]).0 != name@,
            },
    {
        let wanted: String = name.to_owned();
        let mut i: usize = 0;
        while i < self.entries.len()
            invariant
                i <= self.entries.len(),
                wanted@ == name@,
                forall|j: int| 0 <= j < i ==> (#[trigger] self.pairs()[j]).0 != name@,
            decreases self.entries.len() - i,
        {
            if self.entries[i].0 == wanted {
                return Some(i);
            }
            i += 1;
        }
        None
    }

    /// Putting an entry in the place of one with the same name keeps the
    /// names apart and changes the map at that name alone.
    proof fn lemma_replaced(before: Self, after: Self, i: int, entry: (Seq<char>, V))
        requires
            before.wf(),
            0 <= i < before.pairs().len(),
            before.pairs()[i].0 == entry.0,
            after.pairs() == before.pairs().update(i, entry),
        ensures
            after.wf(),
            before@.contains_key(entry.0),
            before.names().index_of(entry.0) == i,
            after@ == before@.insert(entry.0, entry.1),
    {
        before.lemma_entry_in_view(i);
        assert(before.names()[i] == entry.0);
        assert(after.names() =~= before.names());
        assert(after.values() =~= before.values().update(i, entry.1));
        assert forall|k: Seq<char>| #[trigger] after@.contains_key(k) implies after@[k]
            == before@.insert(entry.0, entry.1)[k] by {
            let j = before.names().index_of(k);
            assert(before.names()[j] == k);
        }
        assert(after@ =~= before@.insert(entry.0, entry.1));
    }

    /// Putting an entry with a new name behind the others keeps the names
    /// apart and adds that name to the map.
    proof fn lemma_appended(before: Self, after: Self, entry: (Seq<char>, V))
        requires
            before.wf(),
            forall|j: int| 0 <= j < before.pairs().len() ==> (#[trigger] before.pairs()[j]).0 != entry.0,
            after.pairs() == before.pairs().push(entry),
        ensures
            after.wf(),
            !before@.contains_key(entry.0),
            after@ == before@.insert(entry.0, entry.1),
    {
        before.lemma_absent_from_view(entry.0);
        let last = before.names().len() as int;
        assert(after.names() =~= before.names().push(entry.0));
        assert(after.values() =~= before.values().push(entry.1));
        assert(after.names()[last] == entry.0);
        assert forall|k: Seq<char>| before.names().contains(k) implies after.names().contains(
            k,
        ) by {
            let b = before.names().index_of(k);
            assert(before.names()[b] == k);
            assert(after.names()[b] == k);
        }
        assert forall|k: Seq<char>| #[trigger] after@.contains_key(k) implies after@[k]
            == before@.insert(entry.0, entry.1)[k] by {
            let j = after.names().index_of(k);
            assert(after.names()[j] == k);
            if k != entry.0 {
                let b = before.names().index_of(k);
                assert(before.names()[j] == k);
                assert(before.names()[b] == k);
                assert(after.names()[b] == k);
            }
        }
        assert(after@ =~= before@.insert(entry.0, entry.1));
    }

    /// Puts `value` under `name`: in the place of the value that the name had,
    /// or, for a new name, behind the last entry.
    pub fn insert(&mut self, name: String, value: V)
        ensures
            final(self)@ == old(self)@.insert(name@, value),
            final(self).pairs() == (if old(self)@.contains_key(name@) {
                old(self).pairs().update(old(self).names().index_of(name@), (name@, value))
            } else {
                old(self).pairs().push((name@, value))
            }),
    {
        proof {
            use_type_invariant(&*self);
        }
        let ghost before = *self;
        let ghost entry = (name@, value);
        let at = self.position(name.as_str());
        let mut entries: Vec<(String, V)> = Vec::new();
        core::mem::swap(&mut self.entries, &mut entries);
        match at {
            Some(i) => {
                entries[i] = (name, value);
                proof {
                    let after = Record { entries };
                    assert(after.pairs() =~= before.pairs().update(i as int, entry));
                    Self::lemma_replaced(before, after, i as int, entry);
                }
            },
            None => {
                entries.push((name, value));
                proof {
                    let after = Record { entries };
                    assert(after.pairs() =~= before.pairs().push(entry));
                    Self::lemma_appended(before, after, entry);
                }
            },
        }
        self.entries = entries;
    }

    /// Whether the bundle holds `name`.
    pub fn contains_key(&self, name: &str) -> (held: bool)
        ensures
            held == self@.contains_key(name@),
    {
        proof {
            use_type_invariant(self);
        }
        match self.position(name) {
            Some(i) => {
                proof {
                    self.lemma_entry_in_view(i as int);
                }
                true
            },
            None => {
                proof {
                    self.lemma_absent_from_view(name@);
                }
                false
            },
        }
    }

    /// The value held under `name`.
    pub fn get(&self, name: &str) -> (found: Option<&V>)
        ensures
            found == (if self@.contains_key(name@) {
                Some(&self@[name@])
            } else {
                None::<&V>
            }),
    {
        proof {
            use_type_invariant(self);
        }
        match self.position(name) {
            Some(i) => {
                proof {
                    self.lemma_entry_in_view(i as int);
                }
                Some(&self.entries[i].1)
            },
            None => {
                proof {
                    self.lemma_absent_from_view(name@);
                }
                None
            },
        }
    }
}

} // verus!
