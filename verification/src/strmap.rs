//! A map keyed by strings, kept as a vector of entries in insertion order
//! with no key occurring twice.

use vstd::prelude::*;
use crate::text::{str_eq, views};

verus! {

/// String-keyed map that remembers the order in which keys were first inserted.
#[derive(Debug)]
pub struct StrMap<V> {
    entries: Vec<(String, V)>,
}

/// The keys of a sequence of entries.
pub open spec fn entry_keys<V>(s: Seq<(String, V)>) -> Seq<Seq<char>> {
    s.map_values(|e: (String, V)| e.0@)
}

/// No key occurs twice in a sequence of entries.
pub open spec fn distinct_keys<V>(s: Seq<(String, V)>) -> bool {
    forall|i: int, j: int|
        0 <= i < s.len() && 0 <= j < s.len() && i != j ==> (#[trigger] s[i]).0@ != (#[trigger] s[j]).0@
}

/// The map that a sequence of entries with distinct keys stands for.
pub open spec fn entries_map<V>(s: Seq<(String, V)>) -> Map<Seq<char>, V> {
    Map::new(
        |k: Seq<char>| exists|i: int| 0 <= i < s.len() && (#[trigger] s[i]).0@ == k,
        |k: Seq<char>| s[choose|i: int| 0 <= i < s.len() && (#[trigger] s[i]).0@ == k].1,
    )
}

proof fn lemma_entries_map_at<V>(s: Seq<(String, V)>, i: int)
    requires
        distinct_keys(s),
        0 <= i < s.len(),
    ensures
        entries_map(s).contains_key(s[i].0@),
        entries_map(s)[s[i].0@] == s[i].1,
{
    let k = s[i].0@;
    assert(entries_map(s).dom().contains(k));
    let j = choose|j: int| 0 <= j < s.len() && (#[trigger] s[j]).0@ == k;
    assert(j == i);
}

impl<V> View for StrMap<V> {
    type V = Map<Seq<char>, V>;

    closed spec fn view(&self) -> Map<Seq<char>, V> {
        entries_map(self.entries@)
    }
}

impl<V> StrMap<V> {
    #[verifier::type_invariant]
    closed spec fn keys_distinct(self) -> bool {
        distinct_keys(self.entries@)
    }

    /// The keys, in the order in which they were first inserted.
    pub closed spec fn key_list(&self) -> Seq<Seq<char>> {
        entry_keys(self.entries@)
    }

    /// The values, in the order of `key_list`.
    pub closed spec fn value_list(&self) -> Seq<V> {
        self.entries@.map_values(|e: (String, V)| e.1)
    }

    /// A key is in the map exactly when it is in the key list.
    pub proof fn lemma_view_dom(&self)
        ensures
            forall|k: Seq<char>| #[trigger] self@.contains_key(k) <==> exists|j: int|
                0 <= j < self.key_list().len() && self.key_list()[j] == k,
    {
        assert forall|k: Seq<char>| #[trigger] self@.contains_key(k) implies exists|j: int|
            0 <= j < self.key_list().len() && self.key_list()[j] == k by {
            let j = choose|j: int| 0 <= j < self.entries@.len() && (#[trigger] self.entries@[j]).0@ == k;
            assert(self.key_list()[j] == k);
        }
        assert forall|k: Seq<char>| (exists|j: int| 0 <= j < self.key_list().len() && self.key_list()[j] == k)
            implies #[trigger] self@.contains_key(k) by {
            let j = choose|j: int| 0 <= j < self.key_list().len() && self.key_list()[j] == k;
            assert(self.entries@[j].0@ == k);
        }
    }

    /// An empty map.
    pub fn new() -> (m: Self)
        ensures
            m@ == Map::<Seq<char>, V>::empty(),
            m.key_list() == Seq::<Seq<char>>::empty(),
    {
        let m = StrMap { entries: Vec::new() };
        assert(m@ =~= Map::<Seq<char>, V>::empty());
        assert(m.key_list() =~= Seq::<Seq<char>>::empty());
        m
    }

    /// The number of keys.
    pub fn len(&self) -> (n: usize)
        ensures
            n == self.key_list().len(),
            n == self.value_list().len(),
            forall|i: int, j: int|
                0 <= i < n && 0 <= j < n && i != j ==> #[trigger] self.key_list()[i]
                    != #[trigger] self.key_list()[j],
    {
        proof {
            use_type_invariant(self);
        }
        self.entries.len()
    }

    /// Whether the map holds no key.
    pub fn is_empty(&self) -> (b: bool)
        ensures
            b == (self.key_list().len() == 0),
    {
        self.entries.len() == 0
    }

    /// The position of `k` in the entries, if it is a key.
    fn find(&self, k: &str) -> (r: Option<usize>)
        ensures
            match r {
                Some(i) => i < self.entries@.len() && self.entries@[i as int].0@ == k@,
                None => forall|i: int|
                    0 <= i < self.entries@.len() ==> (#[trigger] self.entries@[i]).0@ != k@,
            },
    {
        let mut i: usize = 0;
        while i < self.entries.len()
            invariant
                i <= self.entries@.len(),
                forall|j: int| 0 <= j < i ==> (#[trigger] self.entries@[j]).0@ != k@,
            decreases self.entries@.len() - i,
        {
            if str_eq(self.entries[i].0.as_str(), k) {
                return Some(i);
            }
            i = i + 1;
        }
        None
    }

    /// Whether `k` is a key.
    pub fn contains_key(&self, k: &str) -> (b: bool)
        ensures
            b == self@.contains_key(k@),
    {
        match self.find(k) {
            Some(i) => {
                proof {
                    use_type_invariant(self);
                    lemma_entries_map_at(self.entries@, i as int);
                }
                true
            },
            None => false,
        }
    }

    /// The value under `k`, if `k` is a key.
    pub fn get(&self, k: &str) -> (r: Option<&V>)
        ensures
            match r {
                Some(v) => self@.contains_key(k@) && *v == self@[k@],
                None => !self@.contains_key(k@),
            },
    {
        match self.find(k) {
            Some(i) => {
                proof {
                    use_type_invariant(self);
                    lemma_entries_map_at(self.entries@, i as int);
                }
                Some(&self.entries[i].1)
            },
            None => None,
        }
    }

    /// The key and value at position `i` of the insertion order.
    pub fn entry_at(&self, i: usize) -> (r: (&String, &V))
        requires
            i < self.key_list().len(),
        ensures
            r.0@ == self.key_list()[i as int],
            *r.1 == self.value_list()[i as int],
            self@.contains_key(r.0@),
            self@[r.0@] == *r.1,
    {
        proof {
            use_type_invariant(self);
            lemma_entries_map_at(self.entries@, i as int);
        }
        (&self.entries[i].0, &self.entries[i].1)
    }

    /// Puts `v` under `k`, replacing any value already there; a new key goes last.
    pub fn insert(&mut self, k: String, v: V)
        ensures
            final(self)@ == old(self)@.insert(k@, v),
            old(self)@.contains_key(k@) ==> final(self).key_list() == old(self).key_list(),
            !old(self)@.contains_key(k@) ==> final(self).key_list() == old(self).key_list().push(k@),
    {
        proof {
            use_type_invariant(&*self);
        }
        let ghost kv = k@;
        let ghost vv = v;
        let ghost s = self.entries@;
        match self.find(k.as_str()) {
            Some(i) => {
                proof {
                    lemma_entries_map_at(s, i as int);
                }
                let mut entries: Vec<(String, V)> = Vec::new();
                std::mem::swap(&mut entries, &mut self.entries);
                entries.set(i, (k, v));
                let ghost t = entries@;
                proof {
                    assert(t =~= s.update(i as int, (t[i as int].0, vv)));
                    assert forall|a: int, b: int|
                        0 <= a < t.len() && 0 <= b < t.len() && a != b implies (#[trigger] t[a]).0@
                        != (#[trigger] t[b]).0@ by {
                        assert(s[a].0@ != s[b].0@);
                    }
                    assert forall|key: Seq<char>| #[trigger] entries_map(t).contains_key(key)
                        <==> entries_map(s).insert(kv, vv).contains_key(key) by {
                        if entries_map(s).insert(kv, vv).contains_key(key) && key != kv {
                            let j = choose|j: int| 0 <= j < s.len() && (#[trigger] s[j]).0@ == key;
                            assert(t[j].0@ == key);
                        }
                        if entries_map(t).contains_key(key) {
                            let j = choose|j: int| 0 <= j < t.len() && (#[trigger] t[j]).0@ == key;
                            if j != i {
                                assert(s[j].0@ == key);
                            }
                        }
                        if key == kv {
                            assert(t[i as int].0@ == key);
                        }
                    }
                    assert forall|key: Seq<char>| #[trigger] entries_map(t).contains_key(key) implies entries_map(
                        t,
                    )[key] == entries_map(s).insert(kv, vv)[key] by {
                        let j = choose|j: int| 0 <= j < t.len() && (#[trigger] t[j]).0@ == key;
                        lemma_entries_map_at(t, j);
                        if j != i {
                            lemma_entries_map_at(s, j);
                        }
                    }
                    assert(entries_map(t) =~= entries_map(s).insert(kv, vv));
                    assert(entry_keys(t) =~= entry_keys(s));
                }
                self.entries = entries;
            },
            None => {
                let mut entries: Vec<(String, V)> = Vec::new();
                std::mem::swap(&mut entries, &mut self.entries);
                entries.push((k, v));
                let ghost t = entries@;
                proof {
                    assert forall|a: int, b: int|
                        0 <= a < t.len() && 0 <= b < t.len() && a != b implies (#[trigger] t[a]).0@
                        != (#[trigger] t[b]).0@ by {
                        if a < s.len() && b < s.len() {
                            assert(s[a].0@ != s[b].0@);
                        } else if a < s.len() {
                            assert(s[a].0@ != kv);
                        } else {
                            assert(s[b].0@ != kv);
                        }
                    }
                    assert forall|key: Seq<char>| #[trigger] entries_map(t).contains_key(key)
                        <==> entries_map(s).insert(kv, vv).contains_key(key) by {
                        if entries_map(s).insert(kv, vv).contains_key(key) && key != kv {
                            let j = choose|j: int| 0 <= j < s.len() && (#[trigger] s[j]).0@ == key;
                            assert(t[j].0@ == key);
                        }
                        if entries_map(t).contains_key(key) {
                            let j = choose|j: int| 0 <= j < t.len() && (#[trigger] t[j]).0@ == key;
                            if j < s.len() {
                                assert(s[j].0@ == key);
                            }
                        }
                        if key == kv {
                            assert(t[s.len() as int].0@ == key);
                        }
                    }
                    assert forall|key: Seq<char>| #[trigger] entries_map(t).contains_key(key) implies entries_map(
                        t,
                    )[key] == entries_map(s).insert(kv, vv)[key] by {
                        let j = choose|j: int| 0 <= j < t.len() && (#[trigger] t[j]).0@ == key;
                        lemma_entries_map_at(t, j);
                        if j < s.len() {
                            lemma_entries_map_at(s, j);
                        }
                    }
                    assert(entries_map(t) =~= entries_map(s).insert(kv, vv));
                    assert(!entries_map(s).contains_key(kv));
                    assert(entry_keys(t) =~= entry_keys(s).push(kv));
                }
                self.entries = entries;
            },
        }
    }

    /// Takes `k` and its value out of the map; the other keys keep their order.
    pub fn remove(&mut self, k: &str) -> (r: Option<V>)
        ensures
            final(self)@ == old(self)@.remove(k@),
            match r {
                Some(v) => old(self)@.contains_key(k@) && v == old(self)@[k@],
                None => !old(self)@.contains_key(k@),
            },
            !old(self)@.contains_key(k@) ==> final(self).key_list() == old(self).key_list(),
            old(self)@.contains_key(k@) ==> exists|i: int|
                0 <= i < old(self).key_list().len() && old(self).key_list()[i] == k@
                    && final(self).key_list() == old(self).key_list().remove(i),
    {
        proof {
            use_type_invariant(&*self);
        }
        let ghost s = self.entries@;
        match self.find(k) {
            Some(i) => {
                proof {
                    lemma_entries_map_at(s, i as int);
                }
                let mut entries: Vec<(String, V)> = Vec::new();
                std::mem::swap(&mut entries, &mut self.entries);
                let e = entries.remove(i);
                let ghost t = entries@;
                proof {
                    assert(t =~= s.remove(i as int));
                    assert forall|a: int, b: int|
                        0 <= a < t.len() && 0 <= b < t.len() && a != b implies (#[trigger] t[a]).0@
                        != (#[trigger] t[b]).0@ by {
                        let a2 = if a < i { a } else { a + 1 };
                        let b2 = if b < i { b } else { b + 1 };
                        assert(t[a] == s[a2]);
                        assert(t[b] == s[b2]);
                        assert(s[a2].0@ != s[b2].0@);
                    }
                    assert forall|key: Seq<char>| #[trigger] entries_map(t).contains_key(key)
                        <==> entries_map(s).remove(k@).contains_key(key) by {
                        if entries_map(s).remove(k@).contains_key(key) {
                            let j = choose|j: int| 0 <= j < s.len() && (#[trigger] s[j]).0@ == key;
                            assert(j != i);
                            if j < i {
                                assert(t[j] == s[j]);
                            } else {
                                assert(t[j - 1] == s[j]);
                            }
                        }
                        if entries_map(t).contains_key(key) {
                            let j = choose|j: int| 0 <= j < t.len() && (#[trigger] t[j]).0@ == key;
                            let j2 = if j < i { j } else { j + 1 };
                            assert(t[j] == s[j2]);
                            assert(s[j2].0@ != s[i as int].0@);
                        }
                    }
                    assert forall|key: Seq<char>| #[trigger] entries_map(t).contains_key(key) implies entries_map(
                        t,
                    )[key] == entries_map(s).remove(k@)[key] by {
                        let j = choose|j: int| 0 <= j < t.len() && (#[trigger] t[j]).0@ == key;
                        let j2 = if j < i { j } else { j + 1 };
                        assert(t[j] == s[j2]);
                        lemma_entries_map_at(t, j);
                        lemma_entries_map_at(s, j2);
                    }
                    assert(entries_map(t) =~= entries_map(s).remove(k@));
                    assert(entry_keys(t) =~= entry_keys(s).remove(i as int));
                    assert(entry_keys(s)[i as int] == k@);
                    assert(0 <= i < entry_keys(s).len() && entry_keys(s)[i as int] == k@
                        && entry_keys(t) == entry_keys(s).remove(i as int));
                }
                let ghost ii = i as int;
                self.entries = entries;
                assert(0 <= ii < old(self).key_list().len() && old(self).key_list()[ii] == k@
                    && self.key_list() == old(self).key_list().remove(ii));
                Some(e.1)
            },
            None => {
                proof {
                    assert(entries_map(s) =~= entries_map(s).remove(k@));
                }
                None
            },
        }
    }

    /// The keys, in insertion order.
    pub fn keys(&self) -> (r: Vec<String>)
        ensures
            views(r@) == self.key_list(),
    {
        let mut r: Vec<String> = Vec::new();
        let mut i: usize = 0;
        while i < self.entries.len()
            invariant
                i <= self.entries@.len(),
                views(r@) == entry_keys(self.entries@).take(i as int),
            decreases self.entries@.len() - i,
        {
            let key = self.entries[i].0.clone();
            proof {
                assert(key@ == self.entries@[i as int].0@);
            }
            let ghost old_r = r@;
            r.push(key);
            proof {
                assert(views(r@) =~= views(old_r).push(key@));
                assert(entry_keys(self.entries@).take(i + 1) =~= entry_keys(self.entries@).take(
                    i as int,
                ).push(self.entries@[i as int].0@));
            }
            i = i + 1;
        }
        assert(views(r@) =~= entry_keys(self.entries@));
        r
    }
}

impl<V: Clone> Clone for StrMap<V> {
    /// A map with the same keys in the same order, each value cloned.
    fn clone(&self) -> (r: Self)
        ensures
            r.key_list() == self.key_list(),
            r@.dom() == self@.dom(),
            forall|k: Seq<char>| #[trigger] r@.contains_key(k) ==> cloned::<V>(self@[k], r@[k]),
    {
        proof {
            use_type_invariant(self);
        }
        let mut entries: Vec<(String, V)> = Vec::new();
        let mut i: usize = 0;
        while i < self.entries.len()
            invariant
                i <= self.entries@.len(),
                distinct_keys(self.entries@),
                entries@.len() == i,
                forall|j: int| 0 <= j < i ==> (#[trigger] entries@[j]).0 == self.entries@[j].0,
                forall|j: int| 0 <= j < i ==> cloned::<V>(self.entries@[j].1, #[trigger] entries@[j].1),
            decreases self.entries@.len() - i,
        {
            let key = self.entries[i].0.clone();
            let value = self.entries[i].1.clone();
            entries.push((key, value));
            i = i + 1;
        }
        let ghost s = self.entries@;
        let ghost t = entries@;
        assert forall|a: int, b: int|
            0 <= a < t.len() && 0 <= b < t.len() && a != b implies (#[trigger] t[a]).0@ != (
            #[trigger] t[b]).0@ by {
            assert(s[a].0@ != s[b].0@);
        }
        assert(entry_keys(t) =~= entry_keys(s));
        assert forall|k: Seq<char>| #[trigger] entries_map(t).contains_key(k) <==> entries_map(s).contains_key(k) by {
            if entries_map(t).contains_key(k) {
                let j = choose|j: int| 0 <= j < t.len() && (#[trigger] t[j]).0@ == k;
                assert(s[j].0@ == k);
            }
            if entries_map(s).contains_key(k) {
                let j = choose|j: int| 0 <= j < s.len() && (#[trigger] s[j]).0@ == k;
                assert(t[j].0@ == k);
            }
        }
        assert(entries_map(t).dom() =~= entries_map(s).dom());
        assert forall|k: Seq<char>| #[trigger] entries_map(t).contains_key(k) implies cloned::<V>(
            entries_map(s)[k],
            entries_map(t)[k],
        ) by {
            let j = choose|j: int| 0 <= j < t.len() && (#[trigger] t[j]).0@ == k;
            lemma_entries_map_at(t, j);
            assert(s[j].0@ == k);
            lemma_entries_map_at(s, j);
        }
        StrMap { entries }
    }
}

} // verus!
