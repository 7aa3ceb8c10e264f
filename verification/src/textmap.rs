//! A map keyed by text, kept as a list of entries with distinct keys.
//! Lookups compare keys character by character.

use vstd::prelude::*;

verus! {

/// One key/value entry.
pub(crate) struct Entry<V> {
    pub key: String,
    pub value: V,
}

/// Map from text keys to values; no key occurs twice.
pub(crate) struct TextMap<V> {
    pub(crate) entries: Vec<Entry<V>>,
}

impl<V> TextMap<V> {
    /// The entries, in insertion order.
    pub(crate) open spec fn entries(&self) -> Seq<Entry<V>> {
        self.entries@
    }

    /// Keys of the entries are pairwise distinct.
    pub(crate) closed spec fn wf(&self) -> bool {
        forall|i: int, j: int|
            0 <= i < self.entries@.len() && 0 <= j < self.entries@.len() && i != j
                ==> #[trigger] self.entries@[i].key@ != #[trigger] self.entries@[j].key@
    }

    /// Some entry has this key.
    pub(crate) closed spec fn has_key(&self, k: Seq<char>) -> bool {
        exists|i: int| 0 <= i < self.entries@.len() && #[trigger] self.entries@[i].key@ == k
    }

    /// Position of the entry with this key (meaningful when `has_key`).
    pub(crate) closed spec fn pos_of(&self, k: Seq<char>) -> int {
        choose|i: int| 0 <= i < self.entries@.len() && #[trigger] self.entries@[i].key@ == k
    }

    /// The map from keys to values.
    pub(crate) closed spec fn view(&self) -> Map<Seq<char>, V> {
        Map::new(|k: Seq<char>| self.has_key(k), |k: Seq<char>| self.entries@[self.pos_of(k)].value)
    }

    /// Number of entries.
    pub(crate) open spec fn spec_len(&self) -> nat {
        self.entries().len()
    }

    /// The entry at position `i` is what the map holds for its key.
    pub(crate) proof fn lemma_entry_in_view(&self, i: int)
        requires
            self.wf(),
            0 <= i < self.entries().len(),
        ensures
            self@.contains_key(self.entries()[i].key@),
            self@[self.entries()[i].key@] == self.entries()[i].value,
            self.pos_of(self.entries()[i].key@) == i,
    {
        let k = self.entries@[i].key@;
        assert(self.has_key(k));
        let j = self.pos_of(k);
        assert(self.entries@[j].key@ == k);
    }

    /// Every key of the map is the key of some entry.
    pub(crate) proof fn lemma_key_has_entry(&self, k: Seq<char>)
        requires
            self@.contains_key(k),
        ensures
            0 <= self.pos_of(k) < self.entries().len(),
            self.entries()[self.pos_of(k)].key@ == k,
            self@[k] == self.entries()[self.pos_of(k)].value,
    {
    }

    /// The view has exactly as many keys as there are entries.
    pub(crate) proof fn lemma_dom_len(&self)
        requires
            self.wf(),
        ensures
            self@.dom().finite(),
            self@.dom().len() == self.entries().len(),
    {
        let f = |i: int| self.entries@[i].key@;
        let idx = Set::new(|i: int| 0 <= i < self.entries@.len());
        assert(idx =~= vstd::set_lib::set_int_range(0, self.entries@.len() as int));
        vstd::set_lib::lemma_int_range(0, self.entries@.len() as int);
        assert forall|x: Seq<char>| #[trigger] self@.dom().contains(x) == idx.map(f).contains(x) by {
            if self@.dom().contains(x) {
                let j = self.pos_of(x);
                assert(idx.contains(j) && f(j) == x);
            }
            if idx.map(f).contains(x) {
                let j = choose|j: int| idx.contains(j) && f(j) == x;
                assert(self.entries@[j].key@ == x);
                assert(self.has_key(x));
            }
        }
        assert(self@.dom() =~= idx.map(f));
        assert(vstd::relations::injective_on(f, idx)) by {
            assert forall|a: int, b: int| idx.contains(a) && idx.contains(b) && f(a) == f(b) implies a == b by {
                if a != b {
                    assert(self.entries@[a].key@ != self.entries@[b].key@);
                }
            }
        }
        vstd::set_lib::lemma_map_size(idx, self@.dom(), f);
    }

    /// An empty map.
    pub(crate) fn new() -> (r: Self)
        ensures
            r.wf(),
            r@ == Map::<Seq<char>, V>::empty(),
            r.entries().len() == 0,
    {
        let r = TextMap { entries: Vec::new() };
        assert(r@ =~= Map::<Seq<char>, V>::empty());
        r
    }

    /// Number of entries.
    pub(crate) fn len(&self) -> (r: usize)
        ensures
            r == self.entries().len(),
    {
        self.entries.len()
    }

    /// Key of the entry at position `i`.
    pub(crate) fn key_at(&self, i: usize) -> (r: &String)
        requires
            i < self.entries().len(),
        ensures
            *r == self.entries()[i as int].key,
    {
        &self.entries[i].key
    }

    /// Value of the entry at position `i`.
    pub(crate) fn value_at(&self, i: usize) -> (r: &V)
        requires
            i < self.entries().len(),
        ensures
            *r == self.entries()[i as int].value,
    {
        &self.entries[i].value
    }

    /// Position of the entry with this key, if any.
    pub(crate) fn find(&self, key: &str) -> (r: Option<usize>)
        requires
            self.wf(),
        ensures
            r is None <==> !self@.contains_key(key@),
            r matches Some(i) ==> (i < self.entries().len() && self.entries()[i as int].key@ == key@),
    {
        let mut i: usize = 0;
        while i < self.entries.len()
            invariant
                i <= self.entries@.len(),
                forall|j: int| 0 <= j < i ==> #[trigger] self.entries@[j].key@ != key@,
            decreases self.entries@.len() - i,
        {
            if crate::text::text_eq(self.entries[i].key.as_str(), key) {
                return Some(i);
            }
            i = i + 1;
        }
        None
    }

    /// The value stored under this key, if any.
    pub(crate) fn get(&self, key: &str) -> (r: Option<&V>)
        requires
            self.wf(),
        ensures
            r is None <==> !self@.contains_key(key@),
            r matches Some(v) ==> *v == self@[key@],
    {
        match self.find(key) {
            Some(i) => {
                proof {
                    self.lemma_entry_in_view(i as int);
                }
                Some(&self.entries[i].value)
            },
            None => None,
        }
    }

    /// Replacing the value of entry `i` updates the map at that key only.
    pub(crate) proof fn lemma_update_view(old_map: &Self, new_map: &Self, i: int, v: V)
        requires
            old_map.wf(),
            0 <= i < old_map.entries().len(),
            new_map.entries() == old_map.entries().update(
                i,
                Entry { key: old_map.entries()[i].key, value: v },
            ),
        ensures
            new_map.wf(),
            new_map@ == old_map@.insert(old_map.entries()[i].key@, v),
    {
        let k = old_map.entries@[i].key@;
        assert forall|a: int, b: int|
            0 <= a < new_map.entries@.len() && 0 <= b < new_map.entries@.len() && a != b
                implies #[trigger] new_map.entries@[a].key@ != #[trigger] new_map.entries@[b].key@ by {
            assert(new_map.entries@[a].key@ == old_map.entries@[a].key@);
            assert(new_map.entries@[b].key@ == old_map.entries@[b].key@);
        }
        new_map.lemma_entry_in_view(i);
        assert forall|x: Seq<char>| #[trigger] new_map.has_key(x) == old_map.has_key(x) by {
            if new_map.has_key(x) {
                let j = new_map.pos_of(x);
                assert(old_map.entries@[j].key@ == x);
            }
            if old_map.has_key(x) {
                let j = old_map.pos_of(x);
                assert(new_map.entries@[j].key@ == x);
            }
        }
        assert forall|x: Seq<char>| x != k && #[trigger] old_map@.contains_key(x)
            implies new_map@[x] == old_map@[x] by {
            let j = old_map.pos_of(x);
            old_map.lemma_entry_in_view(j);
            assert(new_map.entries@[j].key@ == x);
            new_map.lemma_entry_in_view(j);
        }
        assert(new_map@ =~= old_map@.insert(k, v));
    }

    /// Appending an entry under a new key adds that key to the map.
    pub(crate) proof fn lemma_push_view(old_map: &Self, new_map: &Self, e: Entry<V>)
        requires
            old_map.wf(),
            !old_map@.contains_key(e.key@),
            new_map.entries() == old_map.entries().push(e),
        ensures
            new_map.wf(),
            new_map@ == old_map@.insert(e.key@, e.value),
    {
        let n = old_map.entries@.len() as int;
        assert forall|a: int, b: int|
            0 <= a < new_map.entries@.len() && 0 <= b < new_map.entries@.len() && a != b
                implies #[trigger] new_map.entries@[a].key@ != #[trigger] new_map.entries@[b].key@ by {
            if a == n {
                assert(!old_map.has_key(e.key@));
                assert(old_map.entries@[b].key@ != e.key@);
            } else if b == n {
                assert(!old_map.has_key(e.key@));
                assert(old_map.entries@[a].key@ != e.key@);
            } else {
                assert(old_map.entries@[a].key@ != old_map.entries@[b].key@);
            }
        }
        new_map.lemma_entry_in_view(n);
        assert forall|x: Seq<char>| x != e.key@ implies #[trigger] new_map.has_key(x) == old_map.has_key(x) by {
            if new_map.has_key(x) {
                let j = new_map.pos_of(x);
                assert(j != n);
                assert(old_map.entries@[j].key@ == x);
            }
            if old_map.has_key(x) {
                let j = old_map.pos_of(x);
                assert(new_map.entries@[j].key@ == x);
            }
        }
        assert forall|x: Seq<char>| x != e.key@ && #[trigger] old_map@.contains_key(x)
            implies new_map@[x] == old_map@[x] by {
            let j = old_map.pos_of(x);
            old_map.lemma_entry_in_view(j);
            assert(new_map.entries@[j].key@ == x);
            new_map.lemma_entry_in_view(j);
        }
        assert(new_map@ =~= old_map@.insert(e.key@, e.value));
    }

    /// Removing entry `i` removes its key from the map.
    pub(crate) proof fn lemma_remove_view(old_map: &Self, new_map: &Self, i: int)
        requires
            old_map.wf(),
            0 <= i < old_map.entries().len(),
            new_map.entries() == old_map.entries().remove(i),
        ensures
            new_map.wf(),
            new_map@ == old_map@.remove(old_map.entries()[i].key@),
    {
        let k = old_map.entries@[i].key@;
        assert forall|a: int, b: int|
            0 <= a < new_map.entries@.len() && 0 <= b < new_map.entries@.len() && a != b
                implies #[trigger] new_map.entries@[a].key@ != #[trigger] new_map.entries@[b].key@ by {
            let a2 = if a < i { a } else { a + 1 };
            let b2 = if b < i { b } else { b + 1 };
            assert(new_map.entries@[a] == old_map.entries@[a2]);
            assert(new_map.entries@[b] == old_map.entries@[b2]);
            assert(old_map.entries@[a2].key@ != old_map.entries@[b2].key@);
        }
        assert forall|x: Seq<char>| #[trigger] new_map.has_key(x) == (old_map.has_key(x) && x != k) by {
            if new_map.has_key(x) {
                let j = new_map.pos_of(x);
                let j2 = if j < i { j } else { j + 1 };
                assert(new_map.entries@[j] == old_map.entries@[j2]);
                assert(old_map.entries@[j2].key@ == x);
                assert(j2 != i);
                assert(old_map.entries@[i].key@ != old_map.entries@[j2].key@);
            }
            if old_map.has_key(x) && x != k {
                let j = old_map.pos_of(x);
                assert(j != i);
                let j2 = if j < i { j } else { j - 1 };
                assert(new_map.entries@[j2] == old_map.entries@[j]);
                assert(new_map.entries@[j2].key@ == x);
            }
        }
        assert forall|x: Seq<char>| x != k && #[trigger] old_map@.contains_key(x)
            implies new_map@[x] == old_map@[x] by {
            let j = old_map.pos_of(x);
            old_map.lemma_entry_in_view(j);
            assert(j != i);
            let j2 = if j < i { j } else { j - 1 };
            assert(new_map.entries@[j2] == old_map.entries@[j]);
            new_map.lemma_entry_in_view(j2);
        }
        assert(new_map@ =~= old_map@.remove(k));
    }

    /// Store `value` under `key`, replacing any earlier value.
    pub(crate) fn insert(&mut self, key: String, value: V)
        requires
            old(self).wf(),
        ensures
            final(self).wf(),
            final(self)@ == old(self)@.insert(key@, value),
    {
        match self.find(key.as_str()) {
            Some(i) => {
                let ghost before = *self;
                let ek = self.entries[i].key.clone();
                self.entries.set(i, Entry { key: ek, value });
                proof {
                    TextMap::lemma_update_view(&before, self, i as int, value);
                }
            },
            None => {
                let ghost before = *self;
                let e = Entry { key, value };
                let ghost ge = e;
                self.entries.push(e);
                proof {
                    TextMap::lemma_push_view(&before, self, ge);
                }
            },
        }
    }

    /// Remove any value stored under `key`.
    pub(crate) fn remove(&mut self, key: &str)
        requires
            old(self).wf(),
        ensures
            final(self).wf(),
            final(self)@ == old(self)@.remove(key@),
    {
        match self.find(key) {
            Some(i) => {
                let ghost before = *self;
                let _ = self.entries.remove(i);
                proof {
                    TextMap::lemma_remove_view(&before, self, i as int);
                }
            },
            None => {
                assert(self@ =~= old(self)@.remove(key@));
            },
        }
    }
}

} // verus!
