//! A map from string keys to values that keeps its entries in insertion
//! order, so that whatever walks it does so in a fixed order.

use vstd::prelude::*;

use crate::paths::chars_eq;
use crate::text::chars_of;

verus! {

/// Entries in insertion order; a key inserted again replaces the value of
/// its first entry in place.
#[derive(Debug, Clone)]
pub struct OrderedMap<V> {
    pub entries: Vec<(String, V)>,
}

/// The map described by a sequence of entries, where the first entry of a
/// key gives its value.
pub open spec fn map_of<V>(entries: Seq<(String, V)>) -> Map<Seq<char>, V>
    decreases entries.len(),
{
    if entries.len() == 0 {
        Map::empty()
    } else {
        map_of(entries.drop_first()).insert(entries[0].0@, entries[0].1)
    }
}

/// The index of the first entry with key `k`, if any.
pub open spec fn first_key_index<V>(entries: Seq<(String, V)>, k: Seq<char>) -> Option<int>
    decreases entries.len(),
{
    if entries.len() == 0 {
        None
    } else if entries[0].0@ == k {
        Some(0)
    } else {
        match first_key_index(entries.drop_first(), k) {
            Some(i) => Some(i + 1),
            None => None,
        }
    }
}

/// A key is in the map exactly when some entry has it, and its value is that
/// of its first entry.
pub proof fn lemma_map_of<V>(entries: Seq<(String, V)>, k: Seq<char>)
    ensures
        match first_key_index(entries, k) {
            Some(i) => 0 <= i < entries.len() && entries[i].0@ == k && map_of(entries).contains_key(
                k,
            ) && map_of(entries)[k] == entries[i].1 && forall|j: int|
                0 <= j < i ==> entries[j].0@ != k,
            None => !map_of(entries).contains_key(k) && forall|j: int|
                0 <= j < entries.len() ==> entries[j].0@ != k,
        },
    decreases entries.len(),
{
    if entries.len() > 0 {
        lemma_map_of(entries.drop_first(), k);
        assert forall|j: int| 1 <= j < entries.len() implies entries[j] == entries.drop_first()[j
            - 1] by {}
    }
}

/// Replacing the value of the first entry of a key updates the map there.
proof fn lemma_map_of_update<V>(entries: Seq<(String, V)>, i: int, k: String, v: V)
    requires
        first_key_index(entries, k@) == Some(i),
    ensures
        map_of(entries.update(i, (k, v))) == map_of(entries).insert(k@, v),
    decreases entries.len(),
{
    lemma_map_of(entries, k@);
    if i == 0 {
        assert(entries.update(0, (k, v)).drop_first() =~= entries.drop_first());
        assert(map_of(entries.drop_first()).insert(k@, entries[0].1).insert(k@, v) =~= map_of(
            entries.drop_first(),
        ).insert(k@, v));
    } else {
        let t = entries.drop_first();
        assert(first_key_index(t, k@) == Some(i - 1));
        lemma_map_of_update(t, i - 1, k, v);
        assert(entries.update(i, (k, v)).drop_first() =~= t.update(i - 1, (k, v)));
        assert(entries.update(i, (k, v))[0] == entries[0]);
        assert(entries[0].0@ != k@);
        assert(map_of(t).insert(k@, v).insert(entries[0].0@, entries[0].1) =~= map_of(t).insert(
            entries[0].0@,
            entries[0].1,
        ).insert(k@, v));
    }
}

/// Appending an entry for a new key adds it to the map.
proof fn lemma_map_of_push<V>(entries: Seq<(String, V)>, k: String, v: V)
    requires
        first_key_index(entries, k@) is None,
    ensures
        map_of(entries.push((k, v))) == map_of(entries).insert(k@, v),
        first_key_index(entries.push((k, v)), k@) == Some(entries.len() as int),
    decreases entries.len(),
{
    if entries.len() == 0 {
        assert(entries.push((k, v)).drop_first() =~= Seq::<(String, V)>::empty());
        assert(map_of(Seq::<(String, V)>::empty()).insert(k@, v) =~= Map::<Seq<char>, V>::empty().insert(k@, v));
    } else {
        let t = entries.drop_first();
        lemma_map_of_push(t, k, v);
        assert(entries.push((k, v)).drop_first() =~= t.push((k, v)));
        assert(entries.push((k, v))[0] == entries[0]);
        assert(map_of(t).insert(k@, v).insert(entries[0].0@, entries[0].1) =~= map_of(t).insert(
            entries[0].0@,
            entries[0].1,
        ).insert(k@, v));
    }
}

/// A map with string values, seen as text.
pub open spec fn text_values(m: Map<Seq<char>, String>) -> Map<Seq<char>, Seq<char>> {
    m.map_values(|v: String| v@)
}

/// Inserting into a map with string values inserts the text.
pub proof fn lemma_text_values_insert(m: Map<Seq<char>, String>, k: Seq<char>, v: String)
    ensures
        text_values(m.insert(k, v)) == text_values(m).insert(k, v@),
{
    assert(text_values(m.insert(k, v)) =~= text_values(m).insert(k, v@));
}

impl OrderedMap<String> {
    /// The map as text.
    pub open spec fn text_map(&self) -> Map<Seq<char>, Seq<char>> {
        text_values(self.view_map())
    }
}

impl<V> View for OrderedMap<V> {
    type V = Map<Seq<char>, V>;

    /// The map the entries describe (`view_map`).
    open spec fn view(&self) -> Map<Seq<char>, V> {
        self.view_map()
    }
}

impl<V> OrderedMap<V> {
    /// The map the entries describe.
    pub open spec fn view_map(&self) -> Map<Seq<char>, V> {
        map_of(self.entries@)
    }

    /// An empty map.
    pub fn new() -> (r: Self)
        ensures
            r.entries@.len() == 0,
            r.view_map() == Map::<Seq<char>, V>::empty(),
    {
        Self { entries: Vec::new() }
    }

    /// The index of the first entry with key `key`.
    pub fn position(&self, key: &str) -> (r: Option<usize>)
        ensures
            match r {
                Some(i) => first_key_index(self.entries@, key@) == Some(i as int),
                None => first_key_index(self.entries@, key@) is None,
            },
    {
        let kc = chars_of(key);
        let mut i: usize = 0;
        while i < self.entries.len()
            invariant
                0 <= i <= self.entries@.len(),
                kc@ == key@,
                forall|j: int| 0 <= j < i ==> self.entries@[j].0@ != key@,
            decreases self.entries.len() - i,
        {
            let ec = chars_of(self.entries[i].0.as_str());
            if chars_eq(&ec, &kc) {
                proof {
                    lemma_first_key_index_at(self.entries@, key@, i as int);
                }
                return Some(i);
            }
            i = i + 1;
        }
        proof {
            lemma_first_key_index_none(self.entries@, key@);
        }
        None
    }

    /// Whether the map holds `key`.
    pub fn contains_key(&self, key: &str) -> (r: bool)
        ensures
            r == self.view_map().contains_key(key@),
    {
        proof {
            lemma_map_of(self.entries@, key@);
        }
        self.position(key).is_some()
    }

    /// The value under `key`.
    pub fn get(&self, key: &str) -> (r: Option<&V>)
        ensures
            match r {
                Some(v) => self.view_map().contains_key(key@) && self.view_map()[key@] == *v,
                None => !self.view_map().contains_key(key@),
            },
    {
        proof {
            lemma_map_of(self.entries@, key@);
        }
        match self.position(key) {
            Some(i) => Some(&self.entries[i].1),
            None => None,
        }
    }

    /// Sets `key` to `value`: in place when the key is present, otherwise as
    /// a new last entry.
    pub fn insert(&mut self, key: String, value: V)
        ensures
            final(self).view_map() == old(self).view_map().insert(key@, value),
            match first_key_index(old(self).entries@, key@) {
                Some(i) => final(self).entries@ == old(self).entries@.update(i, (key, value)),
                None => final(self).entries@ == old(self).entries@.push((key, value)),
            },
    {
        match self.position(key.as_str()) {
            Some(i) => {
                proof {
                    lemma_map_of(self.entries@, key@);
                    lemma_map_of_update(self.entries@, i as int, key, value);
                }
                self.entries.set(i, (key, value));
            },
            None => {
                proof {
                    lemma_map_of_push(self.entries@, key, value);
                }
                self.entries.push((key, value));
            },
        }
    }

    /// The number of entries.
    pub fn len(&self) -> (r: usize)
        ensures
            r == self.entries@.len(),
    {
        self.entries.len()
    }

    /// Whether there are no entries.
    pub fn is_empty(&self) -> (r: bool)
        ensures
            r == (self.entries@.len() == 0),
    {
        self.entries.len() == 0
    }
}

proof fn lemma_first_key_index_at<V>(entries: Seq<(String, V)>, k: Seq<char>, i: int)
    requires
        0 <= i < entries.len(),
        entries[i].0@ == k,
        forall|j: int| 0 <= j < i ==> entries[j].0@ != k,
    ensures
        first_key_index(entries, k) == Some(i),
    decreases i,
{
    if i > 0 {
        let t = entries.drop_first();
        assert forall|j: int| 0 <= j < i - 1 implies t[j].0@ != k by {
            assert(t[j] == entries[j + 1]);
        }
        lemma_first_key_index_at(t, k, i - 1);
    }
}

proof fn lemma_first_key_index_none<V>(entries: Seq<(String, V)>, k: Seq<char>)
    requires
        forall|j: int| 0 <= j < entries.len() ==> entries[j].0@ != k,
    ensures
        first_key_index(entries, k) is None,
    decreases entries.len(),
{
    if entries.len() > 0 {
        let t = entries.drop_first();
        assert forall|j: int| 0 <= j < t.len() implies t[j].0@ != k by {
            assert(t[j] == entries[j + 1]);
        }
        lemma_first_key_index_none(t, k);
    }
}

} // verus!
