//! A finite map from keys to values, kept as a list of entries with distinct
//! keys.
use vstd::prelude::*;

verus! {

/// The sum of the values of a finite map.
pub open spec fn total<K>(m: Map<K, u128>) -> nat
    decreases m.dom().len(),
    when m.dom().finite()
{
    if m.dom().len() == 0 {
        0
    } else {
        let k = m.dom().choose();
        m[k] as nat + total(m.remove(k))
    }
}

/// The sum of a map is the value at any one key plus the sum of the rest.
pub proof fn lemma_total_remove<K>(m: Map<K, u128>, key: K)
    requires
        m.dom().finite(),
        m.dom().contains(key),
    ensures
        total(m) == m[key] + total(m.remove(key)),
    decreases m.dom().len(),
{
    let c = m.dom().choose();
    assert(m.dom().len() != 0);
    if c != key {
        lemma_total_remove(m.remove(c), key);
        lemma_total_remove(m.remove(key), c);
        assert(m.remove(c).remove(key) =~= m.remove(key).remove(c));
    }
}

/// The empty map sums to zero.
pub proof fn lemma_total_empty<K>()
    ensures
        total(Map::<K, u128>::empty()) == 0,
{
}

/// Inserting a value changes the sum by the difference to what the key held.
pub proof fn lemma_total_insert<K>(m: Map<K, u128>, key: K, value: u128)
    requires
        m.dom().finite(),
    ensures
        total(m.insert(key, value)) + (if m.dom().contains(key) {
            m[key] as nat
        } else {
            0
        }) == total(m) + value,
{
    let after = m.insert(key, value);
    lemma_total_remove(after, key);
    if m.dom().contains(key) {
        lemma_total_remove(m, key);
        assert(after.remove(key) =~= m.remove(key));
    } else {
        assert(after.remove(key) =~= m);
    }
}

/// No value of a finite map exceeds its sum, nor do two values at different
/// keys together.
pub proof fn lemma_total_bounds<K>(m: Map<K, u128>, a: K, b: K)
    requires
        m.dom().finite(),
        m.dom().contains(a),
    ensures
        m[a] <= total(m),
        m.dom().contains(b) && a != b ==> m[a] + m[b] <= total(m),
{
    lemma_total_remove(m, a);
    if m.dom().contains(b) && a != b {
        lemma_total_remove(m.remove(a), b);
    }
}

/// A key that can be told apart from another at run time.
pub trait MapKey: Sized {
    /// Whether two keys are the same key.
    fn same_key(&self, other: &Self) -> (r: bool)
        ensures
            r == (*self == *other),
    ;
}

/// A finite map. Its view is the `Map` from each key that was inserted, and
/// not removed since, to the value last inserted for it.
#[derive(Clone, Debug)]
pub struct Mapping<K, V> {
    entries: Vec<(K, V)>,
}

impl<K, V> View for Mapping<K, V> {
    type V = Map<K, V>;

    closed spec fn view(&self) -> Map<K, V> {
        Map::new(
            |k: K| self.has_key(k),
            |k: K| self.entries@[self.index_of(k)].1,
        )
    }
}

impl<K, V> Mapping<K, V> {
    spec fn has_key(&self, k: K) -> bool {
        exists|i: int| 0 <= i < self.entries@.len() && (#[trigger] self.entries@[i]).0 == k
    }

    spec fn index_of(&self, k: K) -> int {
        choose|i: int| 0 <= i < self.entries@.len() && (#[trigger] self.entries@[i]).0 == k
    }

    /// No key occurs twice among the entries.
    pub closed spec fn wf(&self) -> bool {
        forall|i: int, j: int|
            0 <= i < j < self.entries@.len() ==> (#[trigger] self.entries@[i]).0 != (
            #[trigger] self.entries@[j]).0
    }

    proof fn lemma_entry(&self, i: int)
        requires
            self.wf(),
            0 <= i < self.entries@.len(),
        ensures
            self@.dom().contains(self.entries@[i].0),
            self@[self.entries@[i].0] == self.entries@[i].1,
            self.index_of(self.entries@[i].0) == i,
    {
        let k = self.entries@[i].0;
        assert(self.has_key(k));
        let j = self.index_of(k);
        if j < i {
            assert(self.entries@[j].0 != self.entries@[i].0);
        } else if i < j {
            assert(self.entries@[i].0 != self.entries@[j].0);
        }
    }

    /// A mapping holds finitely many keys.
    pub proof fn lemma_finite(&self)
        ensures
            self@.dom().finite(),
    {
        let keys = self.entries@.map_values(|e: (K, V)| e.0);
        vstd::seq_lib::seq_to_set_is_finite(keys);
        assert(self@.dom() =~= keys.to_set()) by {
            assert forall|k: K| self@.dom().contains(k) implies keys.to_set().contains(k) by {
                let i = self.index_of(k);
                assert(self.has_key(k));
                assert(keys[i] == k);
            }
            assert forall|k: K| keys.to_set().contains(k) implies self@.dom().contains(k) by {
                let i = choose|i: int| 0 <= i < keys.len() && keys[i] == k;
                assert(self.entries@[i].0 == k);
                assert(self.has_key(k));
            }
        }
    }
}

impl<K: MapKey, V> Mapping<K, V> {
    /// The map without any key.
    pub fn new() -> (r: Self)
        ensures
            r.wf(),
            r@ == Map::<K, V>::empty(),
    {
        let r = Mapping { entries: Vec::new() };
        assert(r@ =~= Map::<K, V>::empty());
        r
    }

    fn find(&self, key: &K) -> (r: Option<usize>)
        requires
            self.wf(),
        ensures
            match r {
                Some(i) => i < self.entries@.len() && self.entries@[i as int].0 == *key,
                None => !self@.dom().contains(*key),
            },
    {
        let mut i: usize = 0;
        while i < self.entries.len()
            invariant
                i <= self.entries@.len(),
                forall|j: int| 0 <= j < i ==> (#[trigger] self.entries@[j]).0 != *key,
            decreases self.entries@.len() - i,
        {
            if self.entries[i].0.same_key(key) {
                return Some(i);
            }
            i += 1;
        }
        None
    }

    /// The value kept for `key`, if there is one.
    pub fn get(&self, key: &K) -> (r: Option<&V>)
        requires
            self.wf(),
        ensures
            match r {
                Some(v) => self@.dom().contains(*key) && *v == self@[*key],
                None => !self@.dom().contains(*key),
            },
    {
        match self.find(key) {
            Some(i) => {
                proof {
                    self.lemma_entry(i as int);
                }
                Some(&self.entries[i].1)
            },
            None => None,
        }
    }

    /// Whether a value is kept for `key`.
    pub fn contains(&self, key: &K) -> (r: bool)
        requires
            self.wf(),
        ensures
            r == self@.dom().contains(*key),
    {
        match self.find(key) {
            Some(i) => {
                proof {
                    self.lemma_entry(i as int);
                }
                true
            },
            None => false,
        }
    }

    /// Keeps `value` for `key`, in place of what was kept for it before.
    pub fn insert(&mut self, key: K, value: V)
        requires
            old(self).wf(),
        ensures
            final(self).wf(),
            final(self)@ == old(self)@.insert(key, value),
    {
        let ghost pre = *self;
        match self.find(&key) {
            Some(i) => {
                self.entries[i] = (key, value);
                proof {
                    let post = *self;
                    assert(post.wf()) by {
                        assert forall|a: int, b: int| 0 <= a < b < post.entries@.len() implies (
                        #[trigger] post.entries@[a]).0 != (#[trigger] post.entries@[b]).0 by {
                            assert(post.entries@[a].0 == pre.entries@[a].0);
                            assert(post.entries@[b].0 == pre.entries@[b].0);
                        }
                    }
                    assert forall|k: K| #[trigger]
                        post@.dom().contains(k) == pre@.insert(key, value).dom().contains(k) by {
                        if pre.has_key(k) {
                            let j = pre.index_of(k);
                            assert(post.entries@[j].0 == k);
                        }
                        if post.has_key(k) {
                            let j = post.index_of(k);
                            assert(pre.entries@[j].0 == k);
                        }
                    }
                    assert forall|k: K| #[trigger] post@.dom().contains(k) implies post@[k]
                        == pre@.insert(key, value)[k] by {
                        let j = post.index_of(k);
                        post.lemma_entry(j);
                        if k == key {
                            post.lemma_entry(i as int);
                        } else {
                            assert(pre.entries@[j].0 == k);
                            pre.lemma_entry(j);
                        }
                    }
                    assert(post@ =~= pre@.insert(key, value));
                }
            },
            None => {
                self.entries.push((key, value));
                proof {
                    let post = *self;
                    let n = pre.entries@.len() as int;
                    assert(post.wf()) by {
                        assert forall|a: int, b: int| 0 <= a < b < post.entries@.len() implies (
                        #[trigger] post.entries@[a]).0 != (#[trigger] post.entries@[b]).0 by {
                            assert(post.entries@[a] == pre.entries@[a]);
                            if b < n {
                                assert(post.entries@[b] == pre.entries@[b]);
                            } else {
                                assert(pre.has_key(pre.entries@[a].0));
                            }
                        }
                    }
                    assert forall|k: K| #[trigger]
                        post@.dom().contains(k) == pre@.insert(key, value).dom().contains(k) by {
                        if pre.has_key(k) {
                            let j = pre.index_of(k);
                            assert(post.entries@[j].0 == k);
                        }
                        if k == key {
                            assert(post.entries@[n].0 == k);
                        }
                        if post.has_key(k) {
                            let j = post.index_of(k);
                            if j < n {
                                assert(pre.entries@[j].0 == k);
                            }
                        }
                    }
                    assert forall|k: K| #[trigger] post@.dom().contains(k) implies post@[k]
                        == pre@.insert(key, value)[k] by {
                        let j = post.index_of(k);
                        post.lemma_entry(j);
                        if k == key {
                            post.lemma_entry(n);
                        } else {
                            assert(pre.entries@[j].0 == k);
                            pre.lemma_entry(j);
                        }
                    }
                    assert(post@ =~= pre@.insert(key, value));
                }
            },
        }
    }

    /// Forgets what was kept for `key`.
    pub fn remove(&mut self, key: &K)
        requires
            old(self).wf(),
        ensures
            final(self).wf(),
            final(self)@ == old(self)@.remove(*key),
    {
        let ghost pre = *self;
        match self.find(key) {
            Some(i) => {
                self.entries.remove(i);
                proof {
                    let post = *self;
                    let idx = i as int;
                    assert forall|a: int| 0 <= a < post.entries@.len() implies #[trigger]
                        post.entries@[a] == pre.entries@[if a < idx {
                        a
                    } else {
                        a + 1
                    }] by {}
                    assert(post.wf()) by {
                        assert forall|a: int, b: int| 0 <= a < b < post.entries@.len() implies (
                        #[trigger] post.entries@[a]).0 != (#[trigger] post.entries@[b]).0 by {
                            let a2 = if a < idx { a } else { a + 1 };
                            let b2 = if b < idx { b } else { b + 1 };
                            assert(pre.entries@[a2].0 != pre.entries@[b2].0);
                        }
                    }
                    assert forall|k: K| #[trigger]
                        post@.dom().contains(k) == pre@.remove(*key).dom().contains(k) by {
                        if pre.has_key(k) && k != *key {
                            let j = pre.index_of(k);
                            let j2 = if j < idx { j } else { j - 1 };
                            assert(post.entries@[j2].0 == k);
                        }
                        if post.has_key(k) {
                            let j = post.index_of(k);
                            let j2 = if j < idx { j } else { j + 1 };
                            assert(pre.entries@[j2].0 == k);
                            if k == *key {
                                pre.lemma_entry(j2);
                                pre.lemma_entry(idx);
                            }
                        }
                    }
                    assert forall|k: K| #[trigger] post@.dom().contains(k) implies post@[k]
                        == pre@.remove(*key)[k] by {
                        let j = post.index_of(k);
                        post.lemma_entry(j);
                        let j2 = if j < idx { j } else { j + 1 };
                        assert(pre.entries@[j2].0 == k);
                        pre.lemma_entry(j2);
                    }
                    assert(post@ =~= pre@.remove(*key));
                }
            },
            None => {
                assert(pre@.remove(*key) =~= pre@);
            },
        }
    }
}

impl<K: MapKey + Copy, V: Copy> Mapping<K, V> {
    /// Another mapping with the same keys and values.
    pub fn duplicate(&self) -> (r: Self)
        requires
            self.wf(),
        ensures
            r.wf(),
            r@ == self@,
    {
        let mut entries: Vec<(K, V)> = Vec::new();
        let mut i: usize = 0;
        while i < self.entries.len()
            invariant
                i <= self.entries@.len(),
                entries@ == self.entries@.subrange(0, i as int),
            decreases self.entries@.len() - i,
        {
            entries.push(self.entries[i]);
            assert(entries@ =~= self.entries@.subrange(0, i + 1));
            i += 1;
        }
        let r = Mapping { entries };
        proof {
            assert(r.entries@ =~= self.entries@);
            assert(r@ =~= self@) by {
                assert forall|k: K| r.has_key(k) == self.has_key(k) by {}
                assert forall|k: K| r.has_key(k) implies r.index_of(k) == self.index_of(k) by {}
            }
        }
        r
    }
}

} // verus!
