//! A map held as a vector of entries with distinct keys, keys compared by their views.
use vstd::prelude::*;

verus! {

/// Keys whose equality is equality of their views.
pub trait KeyEq: View + Sized {
    /// Whether the two keys are equal.
    fn key_eq(&self, other: &Self) -> (r: bool)
        ensures
            r == (self@ == other@),
    ;
}

impl KeyEq for String {
    fn key_eq(&self, other: &Self) -> (r: bool) {
        *self == *other
    }
}

impl KeyEq for Vec<u8> {
    fn key_eq(&self, other: &Self) -> (r: bool) {
        if self.len() != other.len() {
            return false;
        }
        let mut i: usize = 0;
        while i < self.len()
            invariant
                self.len() == other.len(),
                i <= self.len(),
                forall|j: int| 0 <= j < i ==> self@[j] == other@[j],
            decreases self.len() - i,
        {
            if self[i] != other[i] {
                return false;
            }
            i = i + 1;
        }
        assert(self@ =~= other@);
        true
    }
}

/// The map that a sequence of entries stands for: later entries win.
pub open spec fn entries_map<K: View, V>(s: Seq<(K, V)>) -> Map<K::V, V>
    decreases s.len(),
{
    if s.len() == 0 {
        Map::empty()
    } else {
        entries_map(s.drop_last()).insert(s.last().0@, s.last().1)
    }
}

/// No two entries have keys with the same view.
pub open spec fn distinct_keys<K: View, V>(s: Seq<(K, V)>) -> bool {
    forall|i: int, j: int| 0 <= i < s.len() && 0 <= j < s.len() && i != j ==> s[i].0@ != s[j].0@
}

/// The map holds exactly the keys of the entries, each with its entry's value.
pub proof fn lemma_entries_map<K: View, V>(s: Seq<(K, V)>)
    requires
        distinct_keys(s),
    ensures
        forall|k: K::V| #[trigger] entries_map(s).contains_key(k) <==> exists|i: int| 0 <= i < s.len() && s[i].0@ == k,
        forall|i: int| 0 <= i < s.len() ==> #[trigger] entries_map(s)[s[i].0@] == s[i].1,
        entries_map(s).dom().finite(),
        entries_map(s).dom().len() == s.len(),
    decreases s.len(),
{
    if s.len() > 0 {
        let p = s.drop_last();
        assert(distinct_keys(p));
        lemma_entries_map(p);
        assert forall|k: K::V| #[trigger] entries_map(s).contains_key(k) <==> exists|i: int| 0 <= i < s.len() && s[i].0@ == k by {
            if entries_map(s).contains_key(k) && k != s.last().0@ {
                let i = choose|i: int| 0 <= i < p.len() && p[i].0@ == k;
                assert(s[i] == p[i]);
            }
            if exists|i: int| 0 <= i < s.len() && s[i].0@ == k {
                let i = choose|i: int| 0 <= i < s.len() && s[i].0@ == k;
                if i < s.len() - 1 {
                    assert(p[i] == s[i]);
                }
            }
        }
        assert forall|i: int| 0 <= i < s.len() implies #[trigger] entries_map(s)[s[i].0@] == s[i].1 by {
            if i < s.len() - 1 {
                assert(p[i] == s[i]);
                assert(s[i].0@ != s.last().0@);
            }
        }
        assert(!entries_map(p).contains_key(s.last().0@)) by {
            if entries_map(p).contains_key(s.last().0@) {
                let i = choose|i: int| 0 <= i < p.len() && p[i].0@ == s.last().0@;
                assert(s[i] == p[i]);
            }
        }
    }
}

/// A map from keys to values, kept as a vector of entries in insertion order.
pub struct KeyedVec<K: KeyEq, V> {
    entries: Vec<(K, V)>,
}

impl<K: KeyEq, V> View for KeyedVec<K, V> {
    type V = Map<K::V, V>;

    closed spec fn view(&self) -> Map<K::V, V> {
        entries_map(self.entries@)
    }
}

impl<K: KeyEq, V> KeyedVec<K, V> {
    /// The entries have distinct keys.
    pub closed spec fn wf(&self) -> bool {
        distinct_keys(self.entries@)
    }

    /// The entries, in insertion order.
    pub closed spec fn entry_seq(&self) -> Seq<(K, V)> {
        self.entries@
    }

    /// The entries are distinct by key and stand for the map.
    pub proof fn lemma_view(&self)
        requires
            self.wf(),
        ensures
            distinct_keys(self.entry_seq()),
            self@ == entries_map(self.entry_seq()),
            forall|k: K::V| #[trigger] self@.contains_key(k) <==> exists|i: int| 0 <= i < self.entry_seq().len() && self.entry_seq()[i].0@ == k,
            forall|i: int| 0 <= i < self.entry_seq().len() ==> #[trigger] self@[self.entry_seq()[i].0@] == self.entry_seq()[i].1,
            self@.dom().finite(),
            self@.dom().len() == self.entry_seq().len(),
    {
        lemma_entries_map(self.entries@);
        assert forall|k: K::V| #[trigger] self@.contains_key(k) <==> exists|i: int| 0 <= i < self.entry_seq().len() && self.entry_seq()[i].0@ == k by {
            let s = self.entries@;
            assert(self.entry_seq() == s);
            if self@.contains_key(k) {
                assert(entries_map(s).contains_key(k));
                let i = choose|i: int| 0 <= i < s.len() && s[i].0@ == k;
                assert(0 <= i < self.entry_seq().len() && self.entry_seq()[i].0@ == k);
            }
            if exists|i: int| 0 <= i < self.entry_seq().len() && self.entry_seq()[i].0@ == k {
                let i = choose|i: int| 0 <= i < self.entry_seq().len() && self.entry_seq()[i].0@ == k;
                assert(0 <= i < s.len() && s[i].0@ == k);
                assert(entries_map(s).contains_key(k));
            }
        }
    }

    /// An empty map.
    pub fn new() -> (r: Self)
        ensures
            r.wf(),
            r@ == Map::<K::V, V>::empty(),
            r.entry_seq().len() == 0,
    {
        KeyedVec { entries: Vec::new() }
    }

    /// The number of keys.
    pub fn len(&self) -> (r: usize)
        requires
            self.wf(),
        ensures
            r == self@.dom().len(),
            r == self.entry_seq().len(),
    {
        proof {
            self.lemma_view();
        }
        self.entries.len()
    }

    /// The entries, in insertion order.
    pub fn entries(&self) -> (r: &Vec<(K, V)>)
        ensures
            r@ == self.entry_seq(),
    {
        &self.entries
    }

    /// The position of the entry with key `k`, if any.
    fn position(&self, k: &K) -> (r: Option<usize>)
        requires
            self.wf(),
        ensures
            match r {
                Some(i) => i < self.entry_seq().len() && self.entry_seq()[i as int].0@ == k@,
                None => forall|i: int| 0 <= i < self.entry_seq().len() ==> self.entry_seq()[i].0@ != k@,
            },
    {
        let mut i: usize = 0;
        while i < self.entries.len()
            invariant
                i <= self.entries.len(),
                forall|j: int| 0 <= j < i ==> self.entries@[j].0@ != k@,
            decreases self.entries.len() - i,
        {
            if self.entries[i].0.key_eq(k) {
                return Some(i);
            }
            i = i + 1;
        }
        None
    }

    /// Whether the map holds key `k`.
    pub fn contains_key(&self, k: &K) -> (r: bool)
        requires
            self.wf(),
        ensures
            r == self@.contains_key(k@),
    {
        proof {
            self.lemma_view();
        }
        self.position(k).is_some()
    }

    /// The value at key `k`, if any.
    pub fn get(&self, k: &K) -> (r: Option<&V>)
        requires
            self.wf(),
        ensures
            match r {
                Some(v) => self@.contains_key(k@) && *v == self@[k@],
                None => !self@.contains_key(k@),
            },
    {
        proof {
            self.lemma_view();
        }
        match self.position(k) {
            Some(i) => Some(&self.entries[i].1),
            None => None,
        }
    }

    /// Sets the value at key `k`, returning the value it replaces.
    pub fn insert(&mut self, k: K, v: V) -> (r: Option<V>)
        requires
            old(self).wf(),
        ensures
            final(self).wf(),
            final(self)@ == old(self)@.insert(k@, v),
            match r {
                Some(old_v) => old(self)@.contains_key(k@) && old_v == old(self)@[k@],
                None => !old(self)@.contains_key(k@),
            },
    {
        proof {
            self.lemma_view();
        }
        let ghost kv = k@;
        let ghost old_map = self@;
        match self.position(&k) {
            Some(i) => {
                let ghost s = self.entries@;
                let old_entry = self.entries.remove(i);
                self.entries.insert(i, (k, v));
                proof {
                    let t = self.entries@;
                    assert(t =~= s.update(i as int, t[i as int]));
                    assert(distinct_keys(t)) by {
                        assert forall|a: int, b: int| 0 <= a < t.len() && 0 <= b < t.len() && a != b implies t[a].0@ != t[b].0@ by {
                            if a != i && b != i {
                                assert(t[a] == s[a] && t[b] == s[b]);
                            } else if a == i {
                                assert(t[b] == s[b]);
                            } else {
                                assert(t[a] == s[a]);
                            }
                        }
                    }
                    lemma_entries_map(t);
                    assert(entries_map(t) =~= old_map.insert(kv, v)) by {
                        assert forall|key: K::V| #[trigger] entries_map(t).contains_key(key) <==> old_map.insert(kv, v).contains_key(key) by {
                            if entries_map(t).contains_key(key) {
                                let j = choose|j: int| 0 <= j < t.len() && t[j].0@ == key;
                                if j != i {
                                    assert(t[j] == s[j]);
                                }
                            }
                            if old_map.contains_key(key) && key != kv {
                                let j = choose|j: int| 0 <= j < s.len() && s[j].0@ == key;
                                assert(j != i);
                                assert(t[j] == s[j]);
                            }
                        }
                        assert forall|key: K::V| #[trigger] entries_map(t).contains_key(key) implies entries_map(t)[key] == old_map.insert(kv, v)[key] by {
                            let j = choose|j: int| 0 <= j < t.len() && t[j].0@ == key;
                            if j != i {
                                assert(t[j] == s[j]);
                            }
                        }
                    }
                }
                Some(old_entry.1)
            },
            None => {
                let ghost s = self.entries@;
                self.entries.push((k, v));
                proof {
                    let t = self.entries@;
                    assert(t.drop_last() =~= s);
                    assert(distinct_keys(t)) by {
                        assert forall|a: int, b: int| 0 <= a < t.len() && 0 <= b < t.len() && a != b implies t[a].0@ != t[b].0@ by {
                            if a < s.len() && b < s.len() {
                                assert(t[a] == s[a] && t[b] == s[b]);
                            } else if a < s.len() {
                                assert(t[a] == s[a]);
                            } else {
                                assert(t[b] == s[b]);
                            }
                        }
                    }
                    assert(!old_map.contains_key(kv)) by {
                        if old_map.contains_key(kv) {
                            let j = choose|j: int| 0 <= j < s.len() && s[j].0@ == kv;
                        }
                    }
                }
                None
            },
        }
    }

    /// Removes the entry at key `k`, returning its value.
    pub fn remove(&mut self, k: &K) -> (r: Option<V>)
        requires
            old(self).wf(),
        ensures
            final(self).wf(),
            final(self)@ == old(self)@.remove(k@),
            match r {
                Some(old_v) => old(self)@.contains_key(k@) && old_v == old(self)@[k@],
                None => !old(self)@.contains_key(k@),
            },
    {
        proof {
            self.lemma_view();
        }
        let ghost old_map = self@;
        match self.position(k) {
            Some(i) => {
                let ghost s = self.entries@;
                let e = self.entries.remove(i);
                proof {
                    let t = self.entries@;
                    assert(t =~= s.remove(i as int));
                    assert(distinct_keys(t)) by {
                        assert forall|a: int, b: int| 0 <= a < t.len() && 0 <= b < t.len() && a != b implies t[a].0@ != t[b].0@ by {
                            let a2 = if a < i { a } else { a + 1 };
                            let b2 = if b < i { b } else { b + 1 };
                            assert(t[a] == s[a2] && t[b] == s[b2]);
                        }
                    }
                    lemma_entries_map(t);
                    assert(entries_map(t) =~= old_map.remove(k@)) by {
                        assert forall|key: K::V| #[trigger] entries_map(t).contains_key(key) <==> old_map.remove(k@).contains_key(key) by {
                            if entries_map(t).contains_key(key) {
                                let j = choose|j: int| 0 <= j < t.len() && t[j].0@ == key;
                                let j2 = if j < i { j } else { j + 1 };
                                assert(t[j] == s[j2]);
                            }
                            if old_map.contains_key(key) && key != k@ {
                                let j = choose|j: int| 0 <= j < s.len() && s[j].0@ == key;
                                assert(j != i);
                                let j2 = if j < i { j } else { j - 1 };
                                assert(t[j2] == s[j]);
                            }
                        }
                        assert forall|key: K::V| #[trigger] entries_map(t).contains_key(key) implies entries_map(t)[key] == old_map.remove(k@)[key] by {
                            let j = choose|j: int| 0 <= j < t.len() && t[j].0@ == key;
                            let j2 = if j < i { j } else { j + 1 };
                            assert(t[j] == s[j2]);
                        }
                    }
                }
                Some(e.1)
            },
            None => {
                proof {
                    assert(!old_map.contains_key(k@)) by {
                        if old_map.contains_key(k@) {
                            let j = choose|j: int| 0 <= j < self.entries@.len() && self.entries@[j].0@ == k@;
                        }
                    }
                    assert(old_map.remove(k@) =~= old_map);
                }
                None
            },
        }
    }

    /// Removes every entry.
    pub fn clear(&mut self)
        requires
            old(self).wf(),
        ensures
            final(self).wf(),
            final(self)@ == Map::<K::V, V>::empty(),
    {
        self.entries.clear();
        proof {
            assert(self.entries@ =~= Seq::<(K, V)>::empty());
        }
    }
}

} // verus!
