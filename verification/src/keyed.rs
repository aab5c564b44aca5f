//! An ordered table keyed by text, used wherever the daemon keeps state
//! indexed by a name or an identifier.
//!
//! The table is a sequence of entries in insertion order with no key
//! occurring twice; its abstract value is the finite map from each key's
//! characters to the entry's value.

use vstd::prelude::*;

verus! {

/// A table from text keys to values of type `V`.
#[derive(Debug)]
pub struct KeyedList<V> {
    entries: Vec<(String, V)>,
}

/// The keys of a sequence of entries, as character sequences.
pub open spec fn keys_of<V>(entries: Seq<(String, V)>) -> Seq<Seq<char>> {
    entries.map_values(|e: (String, V)| e.0@)
}

impl<V> KeyedList<V> {
    /// The keys, in table order.
    pub closed spec fn keys(&self) -> Seq<Seq<char>> {
        keys_of(self.entries@)
    }

    /// The values, in table order.
    pub closed spec fn vals(&self) -> Seq<V> {
        self.entries@.map_values(|e: (String, V)| e.1)
    }

    /// No key occurs twice.
    pub closed spec fn wf(&self) -> bool {
        self.keys().no_duplicates()
    }

    /// Position of `k` among the keys (meaningful when `k` is a key).
    pub closed spec fn pos(&self, k: Seq<char>) -> int {
        choose|i: int| 0 <= i < self.keys().len() && self.keys()[i] == k
    }

    /// The table as a map.
    pub closed spec fn view(&self) -> Map<Seq<char>, V> {
        Map::new(|k: Seq<char>| self.keys().contains(k), |k: Seq<char>| self.vals()[self.pos(k)])
    }

    /// Number of entries.
    pub closed spec fn size(&self) -> nat {
        self.entries@.len()
    }

    /// The keys and values line up with the map view, the keys are exactly
    /// the map's domain, and the map has as many entries as the table.
    pub proof fn lemma_view(&self)
        requires
            self.wf(),
        ensures
            self.keys().no_duplicates(),
            self.keys().len() == self.size(),
            self.vals().len() == self.size(),
            forall|i: int| 0 <= i < self.size() ==> #[trigger] self@.contains_key(self.keys()[i]),
            forall|i: int| 0 <= i < self.size() ==> self@[self.keys()[i]] == #[trigger] self.vals()[i],
            forall|k: Seq<char>| #[trigger] self@.contains_key(k) <==> self.keys().contains(k),
            self@.dom() == self.keys().to_set(),
            self@.dom().finite(),
            self@.len() == self.size(),
    {
        assert forall|i: int| 0 <= i < self.size() implies self@[self.keys()[i]] == #[trigger] self.vals()[i] by {
            let k = self.keys()[i];
            assert(self.keys().contains(k));
            let j = self.pos(k);
            assert(0 <= j < self.keys().len() && self.keys()[j] == k);
            assert(i == j);
        }
        assert(self@.dom() =~= self.keys().to_set());
        self.keys().unique_seq_to_set();
    }

    /// An empty table.
    pub fn new() -> (r: Self)
        ensures
            r.wf(),
            r@ == Map::<Seq<char>, V>::empty(),
            r.size() == 0,
    {
        let r = KeyedList { entries: Vec::new() };
        assert(r@ =~= Map::<Seq<char>, V>::empty());
        r
    }

    /// Number of entries.
    pub fn len(&self) -> (r: usize)
        requires
            self.wf(),
        ensures
            r == self@.len(),
            r == self.size(),
    {
        proof { self.lemma_view(); }
        self.entries.len()
    }

    /// Position of the entry whose key has the text of `k`, if any.
    pub fn find(&self, k: &str) -> (r: Option<usize>)
        requires
            self.wf(),
        ensures
            r is None <==> !self@.contains_key(k@),
            r matches Some(i) ==> i < self.size() && self.keys()[i as int] == k@,
    {
        let key = k.to_owned();
        let mut i: usize = 0;
        while i < self.entries.len()
            invariant
                self.wf(),
                key@ == k@,
                i <= self.entries.len(),
                forall|j: int| 0 <= j < i ==> self.keys()[j] != k@,
            decreases self.entries.len() - i,
        {
            if self.entries[i].0 == key {
                proof { assert(self.keys()[i as int] == k@); }
                return Some(i);
            }
            i = i + 1;
        }
        proof {
            if self.keys().contains(k@) {
                let j = choose|j: int| 0 <= j < self.keys().len() && self.keys()[j] == k@;
                assert(self.keys()[j] != k@);
            }
        }
        None
    }

    /// Whether some key has the text of `k`.
    pub fn contains_key(&self, k: &str) -> (r: bool)
        requires
            self.wf(),
        ensures
            r == self@.contains_key(k@),
    {
        self.find(k).is_some()
    }

    /// The value stored under `k`, if any.
    pub fn get(&self, k: &str) -> (r: Option<&V>)
        requires
            self.wf(),
        ensures
            r == (if self@.contains_key(k@) { Some(&self@[k@]) } else { None }),
    {
        proof { self.lemma_view(); }
        match self.find(k) {
            Some(i) => Some(&self.entries[i].1),
            None => None,
        }
    }

    /// The key of the entry at position `i`.
    pub fn key_at(&self, i: usize) -> (r: &String)
        requires
            i < self.size(),
        ensures
            r@ == self.keys()[i as int],
    {
        &self.entries[i].0
    }

    /// The value of the entry at position `i`.
    pub fn value_at(&self, i: usize) -> (r: &V)
        requires
            i < self.size(),
        ensures
            *r == self.vals()[i as int],
    {
        &self.entries[i].1
    }

    /// Stores `v` under `k`, replacing any value stored under the same key.
    /// A new key goes after the existing ones; a replaced entry keeps its place.
    pub fn insert(&mut self, k: String, v: V)
        requires
            old(self).wf(),
        ensures
            final(self).wf(),
            final(self)@ == old(self)@.insert(k@, v),
            old(self)@.contains_key(k@) ==> final(self).keys() == old(self).keys(),
            !old(self)@.contains_key(k@) ==> final(self).keys() == old(self).keys().push(k@),
    {
        proof { self.lemma_view(); }
        let ghost old_keys = self.keys();
        let ghost old_vals = self.vals();
        match self.find(k.as_str()) {
            Some(i) => {
                self.entries.set(i, (k, v));
                proof {
                    assert(self.keys() =~= old_keys);
                    assert(self.vals() =~= old_vals.update(i as int, v));
                }
            }
            None => {
                self.entries.push((k, v));
                proof {
                    assert(self.keys() =~= old_keys.push(k@));
                    assert(self.vals() =~= old_vals.push(v));
                    assert forall|a: int, b: int|
                        0 <= a < self.keys().len() && 0 <= b < self.keys().len() && a != b
                        implies self.keys()[a] != self.keys()[b] by {
                        if a == old_keys.len() as int {
                            if self.keys()[a] == self.keys()[b] {
                                assert(old_keys[b] == k@);
                                assert(old_keys.contains(k@));
                            }
                        } else if b == old_keys.len() as int {
                            if self.keys()[a] == self.keys()[b] {
                                assert(old_keys[a] == k@);
                                assert(old_keys.contains(k@));
                            }
                        } else {
                            assert(self.keys()[a] == old_keys[a]);
                            assert(self.keys()[b] == old_keys[b]);
                        }
                    }
                }
            }
        }
        proof {
            self.lemma_view();
            assert forall|key: Seq<char>| #[trigger] self@.contains_key(key)
                == old(self)@.insert(k@, v).contains_key(key) by {
                if key == k@ {
                    assert(self.keys().contains(k@)) by {
                        let i = self.keys().len() - 1;
                        if !old_keys.contains(k@) {
                            assert(self.keys()[i] == k@);
                        }
                    }
                } else if old_keys.contains(key) {
                    let j = choose|j: int| 0 <= j < old_keys.len() && old_keys[j] == key;
                    assert(self.keys()[j] == key);
                } else if self.keys().contains(key) {
                    let j = choose|j: int| 0 <= j < self.keys().len() && self.keys()[j] == key;
                    assert(j < old_keys.len());
                    assert(old_keys[j] == key);
                }
            }
            assert forall|key: Seq<char>| #[trigger] self@.contains_key(key) implies
                self@[key] == old(self)@.insert(k@, v)[key] by {
                let j = self.pos(key);
                assert(self@[self.keys()[j]] == self.vals()[j]);
                if key != k@ {
                    assert(j < old_keys.len());
                    assert(old_keys[j] == key);
                    assert(old(self)@[old_keys[j]] == old_vals[j]);
                }
            }
            assert(self@ =~= old(self)@.insert(k@, v));
        }
    }

    /// Removes the entry stored under `k`, returning its value if there was one.
    /// The other entries keep their relative order.
    pub fn remove(&mut self, k: &str) -> (r: Option<V>)
        requires
            old(self).wf(),
        ensures
            final(self).wf(),
            final(self)@ == old(self)@.remove(k@),
            r == (if old(self)@.contains_key(k@) { Some(old(self)@[k@]) } else { None }),
    {
        proof { self.lemma_view(); }
        let ghost old_keys = self.keys();
        let ghost old_vals = self.vals();
        match self.find(k) {
            Some(i) => {
                let (_key, v) = self.entries.remove(i);
                proof {
                    assert(self.keys() =~= old_keys.remove(i as int));
                    assert(self.vals() =~= old_vals.remove(i as int));
                    assert(self.wf()) by {
                        assert forall|a: int, b: int|
                            0 <= a < self.keys().len() && 0 <= b < self.keys().len() && a != b
                            implies self.keys()[a] != self.keys()[b] by {
                            let a2 = if a < i { a } else { a + 1 };
                            let b2 = if b < i { b } else { b + 1 };
                            assert(self.keys()[a] == old_keys[a2]);
                            assert(self.keys()[b] == old_keys[b2]);
                        }
                    }
                    self.lemma_view();
                    assert forall|key: Seq<char>| #[trigger] self@.contains_key(key)
                        == old(self)@.remove(k@).contains_key(key) by {
                        if key == k@ {
                            if self.keys().contains(key) {
                                let j = choose|j: int| 0 <= j < self.keys().len() && self.keys()[j] == key;
                                let j2 = if j < i { j } else { j + 1 };
                                assert(old_keys[j2] == key);
                                assert(old_keys[i as int] == key);
                            }
                        } else if old_keys.contains(key) {
                            let j = choose|j: int| 0 <= j < old_keys.len() && old_keys[j] == key;
                            assert(j != i);
                            let j2 = if j < i { j } else { j - 1 };
                            assert(self.keys()[j2] == key);
                        } else if self.keys().contains(key) {
                            let j = choose|j: int| 0 <= j < self.keys().len() && self.keys()[j] == key;
                            let j2 = if j < i { j } else { j + 1 };
                            assert(old_keys[j2] == key);
                        }
                    }
                    assert forall|key: Seq<char>| #[trigger] self@.contains_key(key) implies
                        self@[key] == old(self)@.remove(k@)[key] by {
                        let j = self.pos(key);
                        assert(self@[self.keys()[j]] == self.vals()[j]);
                        let j2 = if j < i { j } else { j + 1 };
                        assert(old_keys[j2] == key);
                        assert(old(self)@[old_keys[j2]] == old_vals[j2]);
                    }
                    assert(self@ =~= old(self)@.remove(k@));
                    assert(old(self)@[k@] == old_vals[i as int]);
                }
                Some(v)
            }
            None => {
                proof { assert(old(self)@.remove(k@) =~= old(self)@); }
                None
            }
        }
    }
}

impl KeyedList<String> {
    /// A copy holding the same entries in the same order.
    pub fn duplicate(&self) -> (r: Self)
        requires
            self.wf(),
        ensures
            r.wf(),
            r@ == self@,
            r.keys() == self.keys(),
            r.vals() == self.vals(),
    {
        let mut entries: Vec<(String, String)> = Vec::new();
        let mut i: usize = 0;
        while i < self.entries.len()
            invariant
                i <= self.entries.len(),
                entries@ == self.entries@.take(i as int),
            decreases self.entries.len() - i,
        {
            let k = self.entries[i].0.clone();
            let v = self.entries[i].1.clone();
            entries.push((k, v));
            assert(entries@ =~= self.entries@.take(i + 1));
            i = i + 1;
        }
        assert(self.entries@.take(self.entries.len() as int) =~= self.entries@);
        let r = KeyedList { entries };
        assert(r.keys() =~= self.keys());
        assert(r.vals() =~= self.vals());
        assert(r@ =~= self@);
        r
    }
}

} // verus!
