//! A small keyed table: at most one value under each 64-bit key.

use vstd::prelude::*;

verus! {

/// A table from keys to values, held as a list of entries in which no key
/// occurs twice.
pub struct IdTable<V> {
    entries: Vec<(u64, V)>,
}

impl<V> IdTable<V> {
    /// Some entry holds `key`.
    spec fn holds(&self, key: u64) -> bool {
        exists|i: int| 0 <= i < self.entries@.len() && (#[trigger] self.entries@[i]).0 == key
    }

    /// The position of the entry that holds `key`.
    spec fn slot(&self, key: u64) -> int {
        choose|i: int| 0 <= i < self.entries@.len() && (#[trigger] self.entries@[i]).0 == key
    }

    /// No key occurs twice.
    pub closed spec fn wf(&self) -> bool {
        forall|i: int, j: int|
            0 <= i < j < self.entries@.len() ==> (#[trigger] self.entries@[i]).0 != (
            #[trigger] self.entries@[j]).0
    }

    /// The table as a map.
    pub closed spec fn view(&self) -> Map<u64, V> {
        Map::new(|key: u64| self.holds(key), |key: u64| self.entries@[self.slot(key)].1)
    }

    /// In a well-formed table the entry at `i` is the one that the map shows
    /// under its key.
    proof fn lemma_entry(&self, i: int)
        requires
            self.wf(),
            0 <= i < self.entries@.len(),
        ensures
            self@.contains_key(self.entries@[i].0),
            self@[self.entries@[i].0] == self.entries@[i].1,
            self.slot(self.entries@[i].0) == i,
    {
        let key = self.entries@[i].0;
        assert(self.holds(key));
        let s = self.slot(key);
        assert(0 <= s < self.entries@.len() && self.entries@[s].0 == key);
        if s < i {
            assert(self.entries@[s].0 != self.entries@[i].0);
        } else if i < s {
            assert(self.entries@[i].0 != self.entries@[s].0);
        }
    }

    /// An empty table.
    pub fn new() -> (r: Self)
        ensures
            r.wf(),
            r@ == Map::<u64, V>::empty(),
    {
        let r = IdTable { entries: Vec::new() };
        assert(r@ =~= Map::<u64, V>::empty());
        r
    }

    /// The position of the entry that holds `key`, if there is one.
    fn find(&self, key: u64) -> (r: Option<usize>)
        ensures
            match r {
                Some(i) => i < self.entries@.len() && self.entries@[i as int].0 == key,
                None => !self.holds(key),
            },
    {
        let mut i: usize = 0;
        while i < self.entries.len()
            invariant
                i <= self.entries@.len(),
                forall|j: int| 0 <= j < i ==> (#[trigger] self.entries@[j]).0 != key,
            decreases self.entries@.len() - i,
        {
            if self.entries[i].0 == key {
                return Some(i);
            }
            i += 1;
        }
        None
    }

    /// Whether a value stands under `key`.
    pub fn contains(&self, key: u64) -> (r: bool)
        requires
            self.wf(),
        ensures
            r == self@.contains_key(key),
    {
        self.find(key).is_some()
    }

    /// The value under `key`, if there is one.
    pub fn get(&self, key: u64) -> (r: Option<&V>)
        requires
            self.wf(),
        ensures
            match r {
                Some(value) => self@.contains_key(key) && *value == self@[key],
                None => !self@.contains_key(key),
            },
    {
        match self.find(key) {
            Some(i) => {
                proof {
                    self.lemma_entry(i as int);
                }
                Some(&self.entries[i].1)
            },
            None => None,
        }
    }

    /// Puts `value` under `key`, in place of the value that stood there.
    pub fn insert(&mut self, key: u64, value: V)
        requires
            old(self).wf(),
        ensures
            final(self).wf(),
            final(self)@ == old(self)@.insert(key, value),
    {
        let found = self.find(key);
        match found {
            Some(i) => {
                self.entries.set(i, (key, value));
                proof {
                    let before = *old(self);
                    let after = *self;
                    assert(after.wf()) by {
                        assert forall|a: int, b: int|
                            0 <= a < b < after.entries@.len() implies (
                        #[trigger] after.entries@[a]).0 != (#[trigger] after.entries@[b]).0 by {
                            assert(after.entries@[a].0 == before.entries@[a].0);
                            assert(after.entries@[b].0 == before.entries@[b].0);
                        }
                    }
                    assert forall|k: u64| after.holds(k) == before.holds(k) by {
                        if before.holds(k) {
                            let s = before.slot(k);
                            assert(after.entries@[s].0 == k);
                        }
                        if after.holds(k) {
                            let s = after.slot(k);
                            assert(before.entries@[s].0 == k);
                        }
                    }
                    assert forall|k: u64| #[trigger] after.holds(k) implies after@[k]
                        == before@.insert(key, value)[k] by {
                        let s = after.slot(k);
                        after.lemma_entry(s);
                        if k != key {
                            before.lemma_entry(s);
                        } else {
                            after.lemma_entry(i as int);
                        }
                    }
                    before.lemma_entry(i as int);
                    assert(after@ =~= before@.insert(key, value));
                }
            },
            None => {
                self.entries.push((key, value));
                proof {
                    let before = *old(self);
                    let after = *self;
                    let n = before.entries@.len() as int;
                    assert(after.wf()) by {
                        assert forall|a: int, b: int|
                            0 <= a < b < after.entries@.len() implies (
                        #[trigger] after.entries@[a]).0 != (#[trigger] after.entries@[b]).0 by {
                            assert(after.entries@[a] == before.entries@[a]);
                            if b < n {
                                assert(after.entries@[b] == before.entries@[b]);
                            } else {
                                assert(before.entries@[a].0 != key);
                            }
                        }
                    }
                    assert(after.entries@[n].0 == key);
                    assert forall|k: u64| after.holds(k) == (k == key || before.holds(k)) by {
                        if before.holds(k) {
                            let s = before.slot(k);
                            assert(after.entries@[s].0 == k);
                        }
                        if after.holds(k) && k != key {
                            let s = after.slot(k);
                            assert(before.entries@[s].0 == k);
                        }
                    }
                    assert forall|k: u64| #[trigger] after.holds(k) implies after@[k]
                        == before@.insert(key, value)[k] by {
                        let s = after.slot(k);
                        after.lemma_entry(s);
                        if k != key {
                            before.lemma_entry(s);
                        } else {
                            after.lemma_entry(n);
                        }
                    }
                    assert(after@ =~= before@.insert(key, value));
                }
            },
        }
    }

    /// Takes the value under `key` out of the table, if there is one.
    pub fn remove(&mut self, key: u64) -> (r: Option<V>)
        requires
            old(self).wf(),
        ensures
            final(self).wf(),
            final(self)@ == old(self)@.remove(key),
            match r {
                Some(value) => old(self)@.contains_key(key) && value == old(self)@[key],
                None => !old(self)@.contains_key(key),
            },
    {
        let found = self.find(key);
        match found {
            Some(i) => {
                let entry = self.entries.remove(i);
                proof {
                    let before = *old(self);
                    let after = *self;
                    before.lemma_entry(i as int);
                    assert forall|a: int| 0 <= a < after.entries@.len() implies (
                    #[trigger] after.entries@[a]) == before.entries@[if a < i {
                        a
                    } else {
                        a + 1
                    }] by {}
                    assert(after.wf()) by {
                        assert forall|a: int, b: int|
                            0 <= a < b < after.entries@.len() implies (
                        #[trigger] after.entries@[a]).0 != (#[trigger] after.entries@[b]).0 by {
                            let a0 = if a < i { a } else { a + 1 };
                            let b0 = if b < i { b } else { b + 1 };
                            assert(after.entries@[a] == before.entries@[a0]);
                            assert(after.entries@[b] == before.entries@[b0]);
                            assert(before.entries@[a0].0 != before.entries@[b0].0);
                        }
                    }
                    assert forall|k: u64| after.holds(k) == (k != key && before.holds(k)) by {
                        if before.holds(k) && k != key {
                            let s = before.slot(k);
                            let t = if s < i { s } else { s - 1 };
                            assert(after.entries@[t] == before.entries@[s]);
                        }
                        if after.holds(k) {
                            let t = after.slot(k);
                            let s = if t < i { t } else { t + 1 };
                            assert(after.entries@[t] == before.entries@[s]);
                            assert(before.entries@[s].0 == k);
                            if s < i {
                                assert(before.entries@[s].0 != before.entries@[i as int].0);
                            } else {
                                assert(before.entries@[i as int].0 != before.entries@[s].0);
                            }
                        }
                    }
                    assert forall|k: u64| #[trigger] after.holds(k) implies after@[k]
                        == before@[k] by {
                        let t = after.slot(k);
                        let s = if t < i { t } else { t + 1 };
                        after.lemma_entry(t);
                        assert(after.entries@[t] == before.entries@[s]);
                        before.lemma_entry(s);
                    }
                    assert(after@ =~= before@.remove(key));
                }
                Some(entry.1)
            },
            None => {
                assert(self@ =~= old(self)@.remove(key));
                None
            },
        }
    }
}

} // verus!
