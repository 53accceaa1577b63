//! A small map keyed by text, kept in insertion order.

use vstd::prelude::*;

use crate::text::str_equal;

verus! {

/// A map from texts to values that remembers the order in which keys first arrived.
#[derive(Debug)]
pub struct StrMap<V> {
    entries: Vec<(String, V)>,
}

/// Whether `s` has an entry at an index whose key is `k`.
pub open spec fn has_key<V>(s: Seq<(String, V)>, k: Seq<char>) -> bool {
    exists|i: int| 0 <= i < s.len() && (#[trigger] s[i]).0@ == k
}

/// The map that a sequence of entries with distinct keys stands for.
pub open spec fn entries_map<V>(s: Seq<(String, V)>) -> Map<Seq<char>, V> {
    Map::new(
        |k: Seq<char>| has_key(s, k),
        |k: Seq<char>| s[choose|i: int| 0 <= i < s.len() && (#[trigger] s[i]).0@ == k].1,
    )
}

/// No two entries share a key.
pub open spec fn keys_distinct<V>(s: Seq<(String, V)>) -> bool {
    forall|i: int, j: int|
        0 <= i < s.len() && 0 <= j < s.len() && i != j ==> (#[trigger] s[i]).0@ != (#[trigger] s[j]).0@
}

proof fn lemma_entry_in_map<V>(s: Seq<(String, V)>, i: int)
    requires
        keys_distinct(s),
        0 <= i < s.len(),
    ensures
        entries_map(s).contains_key(s[i].0@),
        entries_map(s)[s[i].0@] == s[i].1,
{
    let k = s[i].0@;
    assert(has_key(s, k));
    let j = choose|j: int| 0 <= j < s.len() && (#[trigger] s[j]).0@ == k;
    assert(j == i);
}

impl<V> StrMap<V> {
    #[verifier::type_invariant]
    spec fn distinct(self) -> bool {
        keys_distinct(self.entries@)
    }

    /// The keys, in the order in which they first arrived.
    pub closed spec fn key_order(self) -> Seq<Seq<char>> {
        self.entries@.map_values(|e: (String, V)| e.0@)
    }

    pub closed spec fn as_map(self) -> Map<Seq<char>, V> {
        entries_map(self.entries@)
    }

    proof fn lemma_key_order(self)
        requires
            keys_distinct(self.entries@),
        ensures
            self.key_order().no_duplicates(),
            self.key_order().len() == self.as_map().len(),
            self.as_map().dom() == self.key_order().to_set(),
    {
        let ko = self.key_order();
        let s = self.entries@;
        assert forall|i: int, j: int| 0 <= i < ko.len() && 0 <= j < ko.len() && i != j implies ko[i]
            != ko[j] by {
            assert(s[i].0@ != s[j].0@);
        }
        assert forall|k: Seq<char>| self.as_map().dom().contains(k) <==> ko.to_set().contains(k) by {
            if self.as_map().dom().contains(k) {
                let i = choose|i: int| 0 <= i < s.len() && (#[trigger] s[i]).0@ == k;
                assert(ko[i] == k);
            }
            if ko.to_set().contains(k) {
                let i = choose|i: int| 0 <= i < ko.len() && ko[i] == k;
                assert(s[i].0@ == k);
            }
        }
        assert(self.as_map().dom() =~= ko.to_set());
        ko.unique_seq_to_set();
    }

    /// An empty map.
    pub fn new() -> (m: Self)
        ensures
            m@ == Map::<Seq<char>, V>::empty(),
            m.key_order() == Seq::<Seq<char>>::empty(),
            m@.dom() == m.key_order().to_set(),
    {
        let m = StrMap { entries: Vec::new() };
        assert(m.as_map() =~= Map::<Seq<char>, V>::empty());
        assert(m.key_order() =~= Seq::<Seq<char>>::empty());
        proof { m.lemma_key_order(); }
        m
    }

    fn find(&self, key: &str) -> (r: Option<usize>)
        ensures
            match r {
                Some(i) => i < self.entries@.len() && self.entries@[i as int].0@ == key@,
                None => !has_key(self.entries@, key@),
            },
    {
        let mut i: usize = 0;
        while i < self.entries.len()
            invariant
                i <= self.entries@.len(),
                forall|j: int| 0 <= j < i ==> (#[trigger] self.entries@[j]).0@ != key@,
            decreases self.entries.len() - i,
        {
            if str_equal(self.entries[i].0.as_str(), key) {
                return Some(i);
            }
            i = i + 1;
        }
        None
    }

    /// The value stored under `key`, if any.
    pub fn get(&self, key: &str) -> (r: Option<&V>)
        ensures
            match r {
                Some(v) => self@.contains_key(key@) && *v == self@[key@],
                None => !self@.contains_key(key@),
            },
    {
        proof { use_type_invariant(self); }
        match self.find(key) {
            Some(i) => {
                proof { lemma_entry_in_map(self.entries@, i as int); }
                Some(&self.entries[i].1)
            },
            None => None,
        }
    }

    /// Whether some value is stored under `key`.
    pub fn contains_key(&self, key: &str) -> (r: bool)
        ensures
            r == self@.contains_key(key@),
    {
        self.find(key).is_some()
    }

    /// The number of keys.
    pub fn len(&self) -> (n: usize)
        ensures
            n == self@.len(),
            n == self.key_order().len(),
    {
        proof {
            use_type_invariant(self);
            self.lemma_key_order();
        }
        self.entries.len()
    }

    /// The key and value at position `i` of `key_order`.
    pub fn entry_at(&self, i: usize) -> (r: (&String, &V))
        requires
            i < self.key_order().len(),
        ensures
            r.0@ == self.key_order()[i as int],
            self@.contains_key(r.0@),
            *r.1 == self@[r.0@],
    {
        proof {
            use_type_invariant(self);
            lemma_entry_in_map(self.entries@, i as int);
        }
        let e = &self.entries[i];
        (&e.0, &e.1)
    }

    /// Stores `value` under `key`, replacing what was stored there before.
    pub fn insert(&mut self, key: String, value: V)
        ensures
            final(self)@ == old(self)@.insert(key@, value),
            old(self)@.contains_key(key@) ==> final(self).key_order() == old(self).key_order(),
            !old(self)@.contains_key(key@) ==> final(self).key_order() == old(self).key_order().push(key@),
            final(self)@.dom() == final(self).key_order().to_set(),
            final(self).key_order().no_duplicates(),
    {
        proof { use_type_invariant(&*self); }
        let ghost k = key@;
        let ghost old_entries = self.entries@;
        let found = self.find(key.as_str());
        let mut entries: Vec<(String, V)> = Vec::new();
        std::mem::swap(&mut entries, &mut self.entries);
        assert(entries@ == old_entries);
        match found {
            Some(i) => {
                entries.set(i, (key, value));
                let ghost s = entries@;
                assert(keys_distinct(s)) by {
                    assert forall|a: int, b: int|
                        0 <= a < s.len() && 0 <= b < s.len() && a != b implies (#[trigger] s[a]).0@
                        != (#[trigger] s[b]).0@ by {
                        if a != i && b != i {
                            assert(s[a] == old_entries[a] && s[b] == old_entries[b]);
                        } else if a == i {
                            assert(s[b] == old_entries[b]);
                            assert(old_entries[i as int].0@ == k);
                        } else {
                            assert(s[a] == old_entries[a]);
                            assert(old_entries[i as int].0@ == k);
                        }
                    }
                }
                proof {
                    lemma_entry_in_map(old_entries, i as int);
                    assert forall|kk: Seq<char>| #[trigger] entries_map(s).contains_key(kk)
                        == entries_map(old_entries).insert(k, value).contains_key(kk) by {
                        if has_key(s, kk) {
                            let j = choose|j: int| 0 <= j < s.len() && (#[trigger] s[j]).0@ == kk;
                            if j != i {
                                assert(old_entries[j].0@ == kk);
                                assert(has_key(old_entries, kk));
                            }
                        }
                        if has_key(old_entries, kk) {
                            let j = choose|j: int|
                                0 <= j < old_entries.len() && (#[trigger] old_entries[j]).0@ == kk;
                            if j != i {
                                assert(s[j].0@ == kk);
                            } else {
                                assert(s[i as int].0@ == kk);
                            }
                        }
                        if kk == k {
                            assert(s[i as int].0@ == kk);
                        }
                    }
                    assert forall|kk: Seq<char>| #[trigger] entries_map(s).contains_key(kk)
                        implies entries_map(s)[kk] == entries_map(old_entries).insert(k, value)[kk] by {
                        let j = choose|j: int| 0 <= j < s.len() && (#[trigger] s[j]).0@ == kk;
                        lemma_entry_in_map(s, j);
                        if j != i {
                            assert(old_entries[j] == s[j]);
                            lemma_entry_in_map(old_entries, j);
                        }
                    }
                    assert(entries_map(s) =~= entries_map(old_entries).insert(k, value));
                    assert(s.map_values(|e: (String, V)| e.0@) =~= old_entries.map_values(
                        |e: (String, V)| e.0@,
                    ));
                }
            },
            None => {
                entries.push((key, value));
                let ghost s = entries@;
                assert(keys_distinct(s)) by {
                    assert forall|a: int, b: int|
                        0 <= a < s.len() && 0 <= b < s.len() && a != b implies (#[trigger] s[a]).0@
                        != (#[trigger] s[b]).0@ by {
                        if a < old_entries.len() && b < old_entries.len() {
                            assert(s[a] == old_entries[a] && s[b] == old_entries[b]);
                        } else if a < old_entries.len() {
                            assert(s[a] == old_entries[a]);
                        } else {
                            assert(s[b] == old_entries[b]);
                        }
                    }
                }
                proof {
                    let n = old_entries.len() as int;
                    assert(s[n].0@ == k);
                    assert forall|kk: Seq<char>| #[trigger] entries_map(s).contains_key(kk)
                        == entries_map(old_entries).insert(k, value).contains_key(kk) by {
                        if has_key(s, kk) {
                            let j = choose|j: int| 0 <= j < s.len() && (#[trigger] s[j]).0@ == kk;
                            if j != n {
                                assert(old_entries[j].0@ == kk);
                                assert(has_key(old_entries, kk));
                            }
                        }
                        if has_key(old_entries, kk) {
                            let j = choose|j: int|
                                0 <= j < old_entries.len() && (#[trigger] old_entries[j]).0@ == kk;
                            assert(s[j].0@ == kk);
                        }
                    }
                    assert forall|kk: Seq<char>| #[trigger] entries_map(s).contains_key(kk)
                        implies entries_map(s)[kk] == entries_map(old_entries).insert(k, value)[kk] by {
                        let j = choose|j: int| 0 <= j < s.len() && (#[trigger] s[j]).0@ == kk;
                        lemma_entry_in_map(s, j);
                        if j != n {
                            assert(old_entries[j] == s[j]);
                            lemma_entry_in_map(old_entries, j);
                        }
                    }
                    assert(entries_map(s) =~= entries_map(old_entries).insert(k, value));
                    assert(s.map_values(|e: (String, V)| e.0@) =~= old_entries.map_values(
                        |e: (String, V)| e.0@,
                    ).push(k));
                }
            },
        }
        self.entries = entries;
        proof { self.lemma_key_order(); }
    }

    /// Removes the value stored under `key` and hands it back, if there was one.
    pub fn remove(&mut self, key: &str) -> (r: Option<V>)
        ensures
            final(self)@ == old(self)@.remove(key@),
            final(self)@.dom() == final(self).key_order().to_set(),
            match r {
                Some(v) => old(self)@.contains_key(key@) && v == old(self)@[key@],
                None => !old(self)@.contains_key(key@),
            },
    {
        proof { use_type_invariant(&*self); }
        let ghost k = key@;
        let ghost old_entries = self.entries@;
        let found = self.find(key);
        match found {
            None => {
                assert(entries_map(old_entries).remove(k) =~= entries_map(old_entries));
                proof { self.lemma_key_order(); }
                None
            },
            Some(i) => {
                let mut entries: Vec<(String, V)> = Vec::new();
                std::mem::swap(&mut entries, &mut self.entries);
                proof { lemma_entry_in_map(old_entries, i as int); }
                let e = entries.remove(i);
                let ghost s = entries@;
                assert(forall|j: int| 0 <= j < i ==> s[j] == old_entries[j]);
                assert(forall|j: int| i <= j < s.len() ==> s[j] == old_entries[j + 1]);
                assert(keys_distinct(s)) by {
                    assert forall|a: int, b: int|
                        0 <= a < s.len() && 0 <= b < s.len() && a != b implies (#[trigger] s[a]).0@
                        != (#[trigger] s[b]).0@ by {
                        let a2 = if a < i { a } else { a + 1 };
                        let b2 = if b < i { b } else { b + 1 };
                        assert(s[a] == old_entries[a2]);
                        assert(s[b] == old_entries[b2]);
                    }
                }
                proof {
                    assert forall|kk: Seq<char>| #[trigger] entries_map(s).contains_key(kk)
                        == entries_map(old_entries).remove(k).contains_key(kk) by {
                        if has_key(s, kk) {
                            let j = choose|j: int| 0 <= j < s.len() && (#[trigger] s[j]).0@ == kk;
                            let j2 = if j < i { j } else { j + 1 };
                            assert(old_entries[j2].0@ == kk);
                            assert(has_key(old_entries, kk));
                            assert(j2 != i);
                        }
                        if has_key(old_entries, kk) && kk != k {
                            let j = choose|j: int|
                                0 <= j < old_entries.len() && (#[trigger] old_entries[j]).0@ == kk;
                            assert(j != i);
                            let j2 = if j < i { j } else { j - 1 };
                            assert(s[j2].0@ == kk);
                        }
                    }
                    assert forall|kk: Seq<char>| #[trigger] entries_map(s).contains_key(kk)
                        implies entries_map(s)[kk] == entries_map(old_entries).remove(k)[kk] by {
                        let j = choose|j: int| 0 <= j < s.len() && (#[trigger] s[j]).0@ == kk;
                        lemma_entry_in_map(s, j);
                        let j2 = if j < i { j } else { j + 1 };
                        assert(old_entries[j2] == s[j]);
                        lemma_entry_in_map(old_entries, j2);
                    }
                    assert(entries_map(s) =~= entries_map(old_entries).remove(k));
                }
                self.entries = entries;
                proof { self.lemma_key_order(); }
                Some(e.1)
            },
        }
    }
}

impl<V> View for StrMap<V> {
    type V = Map<Seq<char>, V>;

    closed spec fn view(&self) -> Map<Seq<char>, V> {
        self.as_map()
    }
}

} // verus!
