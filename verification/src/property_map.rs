//! A small map from property keys to values that remembers insertion order.
//!
//! The remote service keys the properties of a database and of a page by
//! name. The map keeps each key once and walks its entries in the order in
//! which they were first inserted, so that everything derived from it is a
//! function of its contents.

use vstd::prelude::*;

verus! {

/// No key occurs twice among `entries`.
pub open spec fn distinct_keys<V>(entries: Seq<(Seq<char>, V)>) -> bool {
    forall|i: int, j: int|
        0 <= i < j < entries.len() ==> (#[trigger] entries[i]).0 != (#[trigger] entries[j]).0
}

/// Some entry of `entries` has the key `key`.
pub open spec fn has_key<V>(entries: Seq<(Seq<char>, V)>, key: Seq<char>) -> bool {
    exists|i: int| 0 <= i < entries.len() && (#[trigger] entries[i]).0 == key
}

/// The position of an entry with the key `key`, where there is one.
pub open spec fn position<V>(entries: Seq<(Seq<char>, V)>, key: Seq<char>) -> int {
    choose|i: int| 0 <= i < entries.len() && (#[trigger] entries[i]).0 == key
}

/// The value stored under `key`.
pub open spec fn lookup<V>(entries: Seq<(Seq<char>, V)>, key: Seq<char>) -> Option<V> {
    if has_key(entries, key) {
        Some(entries[position(entries, key)].1)
    } else {
        None
    }
}

/// `entries` after storing `value` under `key`: the entry with that key is
/// replaced where it stands, a new key goes to the end.
pub open spec fn put<V>(entries: Seq<(Seq<char>, V)>, key: Seq<char>, value: V) -> Seq<
    (Seq<char>, V),
> {
    if has_key(entries, key) {
        entries.update(position(entries, key), (key, value))
    } else {
        entries.push((key, value))
    }
}

/// Where keys are distinct, the entry at `i` is the one found under its key.
pub proof fn lemma_position_unique<V>(entries: Seq<(Seq<char>, V)>, i: int)
    requires
        distinct_keys(entries),
        0 <= i < entries.len(),
    ensures
        has_key(entries, entries[i].0),
        position(entries, entries[i].0) == i,
        lookup(entries, entries[i].0) == Some(entries[i].1),
{
}

/// Storing a value keeps the keys distinct and makes it the value found
/// under its key; every other key keeps what it had.
pub proof fn lemma_put<V>(entries: Seq<(Seq<char>, V)>, key: Seq<char>, value: V)
    requires
        distinct_keys(entries),
    ensures
        distinct_keys(put(entries, key, value)),
        lookup(put(entries, key, value), key) == Some(value),
        forall|other: Seq<char>|
            other != key ==> lookup(put(entries, key, value), other) == lookup(entries, other),
{
    let after = put(entries, key, value);
    let at = if has_key(entries, key) {
        position(entries, key)
    } else {
        entries.len() as int
    };
    assert forall|i: int| 0 <= i < after.len() && i != at implies #[trigger] after[i]
        == entries[i] && entries[i].0 != key by {
        if has_key(entries, key) {
            lemma_position_unique(entries, i);
        }
    }
    lemma_position_unique(after, at);
    assert forall|other: Seq<char>| other != key implies lookup(after, other) == lookup(
        entries,
        other,
    ) by {
        if has_key(entries, other) {
            let i = position(entries, other);
            lemma_position_unique(entries, i);
            lemma_position_unique(after, i);
        }
    }
}

/// An insertion-ordered map from property keys to values of type `V`.
#[derive(Debug)]
pub struct PropertyMap<V> {
    entries: Vec<(String, V)>,
}

/// The stored pairs with each key read as its characters.
spec fn model_of<V>(pairs: Seq<(String, V)>) -> Seq<(Seq<char>, V)> {
    Seq::new(pairs.len(), |i: int| (pairs[i].0@, pairs[i].1))
}

impl<V> View for PropertyMap<V> {
    type V = Seq<(Seq<char>, V)>;

    /// The entries in insertion order, each key as its characters.
    closed spec fn view(&self) -> Seq<(Seq<char>, V)> {
        model_of(self.entries@)
    }
}

impl<V: DeepView> DeepView for PropertyMap<V> {
    type V = Seq<(Seq<char>, V::V)>;

    open spec fn deep_view(&self) -> Seq<(Seq<char>, V::V)> {
        Seq::new(self@.len(), |i: int| (self@[i].0, self@[i].1.deep_view()))
    }
}

impl<V: Clone> Clone for PropertyMap<V> {
    /// A map with the same keys in the same order, each value a clone of
    /// the value it stands for.
    fn clone(&self) -> (copy: PropertyMap<V>)
        ensures
            copy@.len() == self@.len(),
            forall|i: int|
                0 <= i < self@.len() ==> (#[trigger] copy@[i]).0 == self@[i].0 && cloned::<V>(
                    self@[i].1,
                    copy@[i].1,
                ),
    {
        proof {
            use_type_invariant(self);
        }
        let mut entries: Vec<(String, V)> = Vec::new();
        let mut i: usize = 0;
        while i < self.entries.len()
            invariant
                i <= self.entries@.len(),
                entries@.len() == i,
                forall|j: int|
                    0 <= j < i ==> (#[trigger] entries@[j]).0@ == self.entries@[j].0@ && cloned::<V>(
                        self.entries@[j].1,
                        entries@[j].1,
                    ),
            decreases self.entries@.len() - i,
        {
            let pair = &self.entries[i];
            entries.push((pair.0.clone(), pair.1.clone()));
            i += 1;
        }
        assert(distinct_keys(model_of(entries@))) by {
            assert forall|a: int, b: int| 0 <= a < b < entries@.len() implies (
            #[trigger] model_of(entries@)[a]).0 != (#[trigger] model_of(entries@)[b]).0 by {
                assert(self@[a].0 != self@[b].0);
            }
        }
        let copy = PropertyMap { entries };
        copy
    }
}

impl<V> PropertyMap<V> {
    #[verifier::type_invariant]
    spec fn well_formed(self) -> bool {
        distinct_keys(self@)
    }

    /// The empty map.
    pub fn new() -> (map: PropertyMap<V>)
        ensures
            map@ == Seq::<(Seq<char>, V)>::empty(),
    {
        let map = PropertyMap { entries: Vec::new() };
        map
    }

    /// The number of entries. Each of them has a key of its own.
    pub fn len(&self) -> (len: usize)
        ensures
            len == self@.len(),
            distinct_keys(self@),
    {
        proof {
            use_type_invariant(self);
        }
        self.entries.len()
    }

    /// Whether the map has no entry.
    pub fn is_empty(&self) -> (empty: bool)
        ensures
            empty == (self@.len() == 0),
    {
        self.entries.len() == 0
    }

    /// The key and the value of the entry at `index`, counted in insertion
    /// order; `None` past the end.
    pub fn entry(&self, index: usize) -> (entry: Option<(&String, &V)>)
        ensures
            entry is Some == (index < self@.len()),
            entry matches Some((key, value)) ==> key@ == self@[index as int].0 && *value
                == self@[index as int].1,
    {
        if index < self.entries.len() {
            let pair = &self.entries[index];
            Some((&pair.0, &pair.1))
        } else {
            None
        }
    }

    fn find(&self, key: &str) -> (found: Option<usize>)
        ensures
            found is Some == has_key(self@, key@),
            found matches Some(i) ==> i == position(self@, key@) && i < self@.len(),
    {
        proof {
            use_type_invariant(self);
        }
        let mut i: usize = 0;
        while i < self.entries.len()
            invariant
                i <= self.entries@.len(),
                self@.len() == self.entries@.len(),
                distinct_keys(self@),
                forall|j: int| 0 <= j < i ==> (#[trigger] self@[j]).0 != key@,
            decreases self.entries@.len() - i,
        {
            if crate::text::same_text(self.entries[i].0.as_str(), key) {
                proof {
                    lemma_position_unique(self@, i as int);
                }
                return Some(i);
            }
            i += 1;
        }
        None
    }

    /// Whether some entry has the key `key`.
    pub fn contains_key(&self, key: &str) -> (present: bool)
        ensures
            present == has_key(self@, key@),
    {
        self.find(key).is_some()
    }

    /// The value stored under `key`.
    pub fn get(&self, key: &str) -> (value: Option<&V>)
        ensures
            value is Some == has_key(self@, key@),
            value matches Some(v) ==> lookup(self@, key@) == Some(*v),
    {
        match self.find(key) {
            Some(i) => Some(&self.entries[i].1),
            None => None,
        }
    }

    /// Stores `value` under `key` and returns the value that the key had
    /// before. An existing entry keeps its place; a new key goes to the end.
    pub fn insert(&mut self, key: String, value: V) -> (previous: Option<V>)
        ensures
            final(self)@ == put(old(self)@, key@, value),
            previous == lookup(old(self)@, key@),
            distinct_keys(final(self)@),
    {
        proof {
            use_type_invariant(&*self);
            lemma_put(self@, key@, value);
        }
        let ghost before = self@;
        match self.find(key.as_str()) {
            Some(i) => {
                let mut entries = Vec::new();
                std::mem::swap(&mut entries, &mut self.entries);
                let replaced = entries.remove(i);
                entries.insert(i, (key, value));
                assert(model_of(entries@) =~= put(before, key@, value));
                self.entries = entries;
                Some(replaced.1)
            },
            None => {
                let mut entries = Vec::new();
                std::mem::swap(&mut entries, &mut self.entries);
                entries.push((key, value));
                assert(model_of(entries@) =~= put(before, key@, value));
                self.entries = entries;
                None
            },
        }
    }
}

} // verus!
