//! A map from text to values, kept as a list of entries in the order in which
//! their keys first came.
//!
//! Its model is a `Map` from `Seq<char>`; beside it stand the keys and the
//! values as sequences, for callers that walk the entries.
//!
//! vstd gives a hash map its model only for keys that are known to obey the
//! key model, and knows that of integers, not of `String`. So a map keyed by
//! text is kept here as a list, with the distinctness of its keys as its
//! invariant.

use vstd::prelude::*;

verus! {

/// The map that a list of distinct keys and a list of values stand for: each
/// key goes to the value at its place.
pub open spec fn map_of<V>(keys: Seq<Seq<char>>, values: Seq<V>) -> Map<Seq<char>, V> {
    Map::new(|k: Seq<char>| keys.contains(k), |k: Seq<char>| values[keys.index_of(k)])
}

/// In a list without duplicates a key is found at its own place.
pub proof fn lemma_index_of_unique(keys: Seq<Seq<char>>, i: int)
    requires
        keys.no_duplicates(),
        0 <= i < keys.len(),
    ensures
        keys.contains(keys[i]),
        keys.index_of(keys[i]) == i,
{
    let j = keys.index_of(keys[i]);
    assert(keys[j] == keys[i]);
}

/// A new key at the end adds one binding.
pub proof fn lemma_map_of_push<V>(keys: Seq<Seq<char>>, values: Seq<V>, k: Seq<char>, v: V)
    requires
        keys.no_duplicates(),
        keys.len() == values.len(),
        !keys.contains(k),
    ensures
        keys.push(k).no_duplicates(),
        map_of(keys.push(k), values.push(v)) == map_of(keys, values).insert(k, v),
{
    let keys2 = keys.push(k);
    let values2 = values.push(v);
    assert(keys2.no_duplicates()) by {
        assert forall|i: int, j: int| 0 <= i < keys2.len() && 0 <= j < keys2.len() && i != j implies keys2[i] != keys2[j] by {
            if i < keys.len() && j < keys.len() {
                assert(keys[i] != keys[j]);
            } else if i < keys.len() {
                assert(keys.contains(keys[i]));
            } else {
                assert(keys.contains(keys[j]));
            }
        }
    }
    assert forall|q: Seq<char>| keys2.contains(q) <==> (q == k || keys.contains(q)) by {
        if keys2.contains(q) {
            let i = keys2.index_of(q);
            if i < keys.len() {
                assert(keys[i] == q);
            }
        }
        if q == k {
            assert(keys2[keys.len() as int] == k);
        }
        if keys.contains(q) {
            let i = keys.index_of(q);
            assert(keys2[i] == q);
        }
    }
    assert forall|q: Seq<char>| keys.contains(q) implies values2[keys2.index_of(q)] == values[keys.index_of(q)] by {
        let i = keys.index_of(q);
        assert(keys2[i] == q);
        lemma_index_of_unique(keys2, i);
    }
    assert(values2[keys2.index_of(k)] == v) by {
        assert(keys2[keys.len() as int] == k);
        lemma_index_of_unique(keys2, keys.len() as int);
    }
    assert(map_of(keys2, values2) =~= map_of(keys, values).insert(k, v));
}

/// A new value at the place of a key rebinds that key.
pub proof fn lemma_map_of_update<V>(keys: Seq<Seq<char>>, values: Seq<V>, i: int, v: V)
    requires
        keys.no_duplicates(),
        keys.len() == values.len(),
        0 <= i < keys.len(),
    ensures
        map_of(keys, values.update(i, v)) == map_of(keys, values).insert(keys[i], v),
{
    let values2 = values.update(i, v);
    lemma_index_of_unique(keys, i);
    assert forall|q: Seq<char>| keys.contains(q) && q != keys[i] implies values2[keys.index_of(q)] == values[keys.index_of(q)] by {
        let j = keys.index_of(q);
        assert(keys[j] == q);
    }
    assert(map_of(keys, values2) =~= map_of(keys, values).insert(keys[i], v));
}

/// Taking out the entry at a place unbinds its key.
pub proof fn lemma_map_of_remove<V>(keys: Seq<Seq<char>>, values: Seq<V>, i: int)
    requires
        keys.no_duplicates(),
        keys.len() == values.len(),
        0 <= i < keys.len(),
    ensures
        keys.remove(i).no_duplicates(),
        !keys.remove(i).contains(keys[i]),
        map_of(keys.remove(i), values.remove(i)) == map_of(keys, values).remove(keys[i]),
{
    let keys2 = keys.remove(i);
    let values2 = values.remove(i);
    assert forall|a: int, b: int| 0 <= a < keys2.len() && 0 <= b < keys2.len() && a != b implies keys2[a] != keys2[b] by {
        let a0 = if a < i { a } else { a + 1 };
        let b0 = if b < i { b } else { b + 1 };
        assert(keys2[a] == keys[a0]);
        assert(keys2[b] == keys[b0]);
    }
    assert(!keys2.contains(keys[i])) by {
        if keys2.contains(keys[i]) {
            let a = keys2.index_of(keys[i]);
            let a0 = if a < i { a } else { a + 1 };
            assert(keys2[a] == keys[a0]);
        }
    }
    assert forall|q: Seq<char>| keys2.contains(q) <==> (keys.contains(q) && q != keys[i]) by {
        if keys2.contains(q) {
            let a = keys2.index_of(q);
            let a0 = if a < i { a } else { a + 1 };
            assert(keys2[a] == keys[a0]);
        }
        if keys.contains(q) && q != keys[i] {
            let j = keys.index_of(q);
            let a = if j < i { j } else { j - 1 };
            assert(keys2[a] == q);
        }
    }
    assert forall|q: Seq<char>| keys2.contains(q) implies values2[keys2.index_of(q)] == values[keys.index_of(q)] by {
        let a = keys2.index_of(q);
        let a0 = if a < i { a } else { a + 1 };
        assert(keys2[a] == keys[a0]);
        lemma_index_of_unique(keys, a0);
    }
    assert(map_of(keys2, values2) =~= map_of(keys, values).remove(keys[i]));
}

/// A map from text to `V`.
#[derive(Debug)]
pub struct StringMap<V> {
    entries: Vec<(String, V)>,
}

impl<V> StringMap<V> {
    #[verifier::type_invariant]
    spec fn distinct_keys(&self) -> bool {
        self.keys().no_duplicates()
    }

    /// The keys, in the order in which they first came.
    pub closed spec fn keys(&self) -> Seq<Seq<char>> {
        Seq::new(self.entries@.len(), |i: int| self.entries@[i].0@)
    }

    /// The values, each at the place of its key.
    pub closed spec fn values(&self) -> Seq<V> {
        Seq::new(self.entries@.len(), |i: int| self.entries@[i].1)
    }

    /// No key stands twice, and every key has its value.
    pub open spec fn wf(&self) -> bool {
        &&& self.keys().no_duplicates()
        &&& self.keys().len() == self.values().len()
    }

    /// The bindings.
    pub open spec fn view(&self) -> Map<Seq<char>, V> {
        map_of(self.keys(), self.values())
    }

    /// A map without bindings.
    pub fn new() -> (m: Self)
        ensures
            m.wf(),
            m.keys() == Seq::<Seq<char>>::empty(),
            m@ == Map::<Seq<char>, V>::empty(),
    {
        let m = StringMap { entries: Vec::new() };
        assert(m.keys() =~= Seq::<Seq<char>>::empty());
        assert(m@ =~= Map::<Seq<char>, V>::empty());
        m
    }

    /// The number of bindings.
    pub fn len(&self) -> (n: usize)
        ensures
            self.wf(),
            n == self.keys().len(),
            n == self@.dom().len(),
    {
        proof {
            use_type_invariant(self);
            self.keys().unique_seq_to_set();
            assert(self@.dom() =~= self.keys().to_set());
        }
        self.entries.len()
    }

    /// The place of a key among the keys.
    pub fn index_of(&self, key: &str) -> (r: Option<usize>)
        ensures
            self.wf(),
            match r {
                Some(i) => i < self.keys().len() && self.keys()[i as int] == key@,
                None => !self.keys().contains(key@),
            },
    {
        proof {
            use_type_invariant(self);
        }
        let mut i: usize = 0;
        while i < self.entries.len()
            invariant
                self.wf(),
                i <= self.entries@.len(),
                forall|k: int| 0 <= k < i ==> self.keys()[k] != key@,
            decreases self.entries@.len() - i,
        {
            if crate::text::str_eq(self.entries[i].0.as_str(), key) {
                return Some(i);
            }
            i += 1;
        }
        None
    }

    /// Tells whether a key is bound.
    pub fn contains_key(&self, key: &str) -> (r: bool)
        ensures
            self.wf(),
            r == self@.contains_key(key@),
    {
        self.index_of(key).is_some()
    }

    /// The value of a key.
    pub fn get(&self, key: &str) -> (r: Option<&V>)
        ensures
            self.wf(),
            match r {
                Some(v) => self@.contains_key(key@) && *v == self@[key@],
                None => !self@.contains_key(key@),
            },
    {
        match self.index_of(key) {
            None => None,
            Some(i) => {
                proof {
                    lemma_index_of_unique(self.keys(), i as int);
                }
                Some(&self.entries[i].1)
            },
        }
    }

    /// The key at a place.
    pub fn key_at(&self, i: usize) -> (k: &String)
        requires
            i < self.keys().len(),
        ensures
            self.wf(),
            k@ == self.keys()[i as int],
            self@.contains_key(k@),
    {
        proof {
            use_type_invariant(self);
            lemma_index_of_unique(self.keys(), i as int);
        }
        &self.entries[i].0
    }

    /// The value at a place.
    pub fn value_at(&self, i: usize) -> (v: &V)
        requires
            i < self.keys().len(),
        ensures
            self.wf(),
            *v == self.values()[i as int],
            *v == self@[self.keys()[i as int]],
    {
        proof {
            use_type_invariant(self);
            lemma_index_of_unique(self.keys(), i as int);
        }
        &self.entries[i].1
    }

    /// Binds a key to a value. A key that is bound keeps its place; a new
    /// key goes to the end.
    pub fn insert(&mut self, key: String, value: V)
        ensures
            final(self).wf(),
            final(self)@ == old(self)@.insert(key@, value),
            old(self)@.contains_key(key@) ==> final(self).keys() == old(self).keys(),
            !old(self)@.contains_key(key@) ==> final(self).keys() == old(self).keys().push(key@),
    {
        proof {
            use_type_invariant(&*self);
        }
        let ghost keys = self.keys();
        let ghost values = self.values();
        let found = self.index_of(key.as_str());
        let mut entries: Vec<(String, V)> = Vec::new();
        self.swap_entries(&mut entries);
        match found {
            Some(i) => {
                entries.set(i, (key, value));
                proof {
                    lemma_map_of_update(keys, values, i as int, value);
                }
            },
            None => {
                entries.push((key, value));
                proof {
                    lemma_map_of_push(keys, values, key@, value);
                }
            },
        }
        proof {
            let k2 = Seq::new(entries@.len(), |i: int| entries@[i].0@);
            if found is Some {
                assert(k2 =~= keys);
            } else {
                assert(k2 =~= keys.push(key@));
            }
        }
        self.swap_entries(&mut entries);
        proof {
            if found is Some {
                assert(self.keys() =~= keys);
                assert(self.values() =~= values.update(found->0 as int, value));
            } else {
                assert(self.keys() =~= keys.push(key@));
                assert(self.values() =~= values.push(value));
            }
        }
    }

    /// Exchanges the entries with a list whose keys are distinct.
    fn swap_entries(&mut self, other: &mut Vec<(String, V)>)
        requires
            Seq::new(old(other)@.len(), |i: int| old(other)@[i].0@).no_duplicates(),
        ensures
            final(self).entries == *old(other),
            *final(other) == old(self).entries,
        no_unwind
    {
        core::mem::swap(&mut self.entries, other);
    }

    /// Exchanges the value at a place with another value.
    pub fn swap_value_at(&mut self, i: usize, value: &mut V)
        requires
            i < old(self).keys().len(),
        ensures
            final(self).wf(),
            final(self).keys() == old(self).keys(),
            final(self).values() == old(self).values().update(i as int, *old(value)),
            final(self)@ == old(self)@.insert(old(self).keys()[i as int], *old(value)),
            *final(value) == old(self).values()[i as int],
    {
        proof {
            use_type_invariant(&*self);
        }
        let ghost keys = self.keys();
        let ghost values = self.values();
        let mut entries: Vec<(String, V)> = Vec::new();
        self.swap_entries(&mut entries);
        let mut entry = entries.remove(i);
        core::mem::swap(&mut entry.1, value);
        entries.insert(i, entry);
        proof {
            let k2 = Seq::new(entries@.len(), |j: int| entries@[j].0@);
            assert(k2 =~= keys);
            lemma_map_of_update(keys, values, i as int, *old(value));
        }
        self.swap_entries(&mut entries);
        proof {
            assert(self.keys() =~= keys);
            assert(self.values() =~= values.update(i as int, *old(value)));
        }
    }

    /// Unbinds a key; the other keys keep their order.
    pub fn remove(&mut self, key: &str) -> (was_bound: bool)
        ensures
            final(self).wf(),
            was_bound == old(self)@.contains_key(key@),
            final(self)@ == old(self)@.remove(key@),
            !was_bound ==> final(self).keys() == old(self).keys(),
            was_bound ==> final(self).keys() == old(self).keys().remove(
                old(self).keys().index_of(key@),
            ),
    {
        proof {
            use_type_invariant(&*self);
        }
        let ghost keys = self.keys();
        let ghost values = self.values();
        match self.index_of(key) {
            Some(i) => {
                proof {
                    lemma_index_of_unique(keys, i as int);
                    lemma_map_of_remove(keys, values, i as int);
                }
                let mut entries: Vec<(String, V)> = Vec::new();
                self.swap_entries(&mut entries);
                entries.remove(i);
                proof {
                    let k2 = Seq::new(entries@.len(), |i: int| entries@[i].0@);
                    assert(k2 =~= keys.remove(i as int));
                }
                self.swap_entries(&mut entries);
                proof {
                    assert(self.keys() =~= keys.remove(i as int));
                    assert(self.values() =~= values.remove(i as int));
                }
                true
            },
            None => {
                assert(self@ =~= self@.remove(key@));
                false
            },
        }
    }

    /// Unbinds every key.
    pub fn clear(&mut self)
        ensures
            final(self).wf(),
            final(self).keys() == Seq::<Seq<char>>::empty(),
            final(self)@ == Map::<Seq<char>, V>::empty(),
    {
        self.entries = Vec::new();
        assert(self.keys() =~= Seq::<Seq<char>>::empty());
        assert(self@ =~= Map::<Seq<char>, V>::empty());
    }
}

} // verus!
