use vstd::prelude::*;

verus! {

/// A map keyed by strings, each key at most once, kept as a list of entries.
pub struct StrMap<V> {
    entries: Vec<(String, V)>,
}

/// The entries hold each key at most once.
pub open spec fn keys_unique<V>(entries: Seq<(String, V)>) -> bool {
    forall|i: int, j: int|
        0 <= i < entries.len() && 0 <= j < entries.len() && i != j ==> entries[i].0@
            != entries[j].0@
}

/// Some entry has key `k`.
pub open spec fn has_key<V>(entries: Seq<(String, V)>, k: Seq<char>) -> bool {
    exists|i: int| 0 <= i < entries.len() && entries[i].0@ == k
}

/// The position of the entry with key `k`.
pub open spec fn key_index<V>(entries: Seq<(String, V)>, k: Seq<char>) -> int {
    choose|i: int| 0 <= i < entries.len() && entries[i].0@ == k
}

/// The map that entries with distinct keys stand for.
pub open spec fn entries_map<V: View>(entries: Seq<(String, V)>) -> Map<Seq<char>, V::V> {
    Map::new(|k: Seq<char>| has_key(entries, k), |k: Seq<char>| entries[key_index(entries, k)].1@)
}

/// Entries with distinct keys stand for a finite map with as many keys.
pub proof fn lemma_entries_len<V: View>(es: Seq<(String, V)>)
    requires
        keys_unique(es),
    ensures
        entries_map(es).dom().finite(),
        entries_map(es).len() == es.len(),
{
    let keys = es.map_values(|e: (String, V)| e.0@);
    assert(entries_map(es).dom() =~= keys.to_set()) by {
        assert forall|k: Seq<char>| entries_map(es).dom().contains(k) implies keys.to_set().contains(k) by {
            let i = key_index(es, k);
            assert(keys[i] == k);
        }
        assert forall|k: Seq<char>| keys.to_set().contains(k) implies entries_map(es).dom().contains(k) by {
            let i = choose|i: int| 0 <= i < keys.len() && keys[i] == k;
            assert(es[i].0@ == k);
        }
    }
    assert(keys.no_duplicates()) by {
        assert forall|i: int, j: int| 0 <= i < keys.len() && 0 <= j < keys.len() && i != j implies keys[i] != keys[j] by {
        }
    }
    keys.unique_seq_to_set();
}

impl<V: View> View for StrMap<V> {
    type V = Map<Seq<char>, V::V>;

    closed spec fn view(&self) -> Map<Seq<char>, V::V> {
        entries_map(self.entries@)
    }
}

impl<V> StrMap<V> {
    /// The entries hold each key at most once.
    #[verifier::type_invariant]
    spec fn inv(&self) -> bool {
        keys_unique(self.entries@)
    }
}

impl<V: View> StrMap<V> {
    /// The empty map.
    pub fn new() -> (r: StrMap<V>)
        ensures
            r@ == Map::<Seq<char>, V::V>::empty(),
    {
        let r = StrMap { entries: Vec::new() };
        assert(r@ =~= Map::<Seq<char>, V::V>::empty());
        r
    }

    /// The number of keys.
    pub fn len(&self) -> (r: usize)
        ensures
            r == self@.len(),
    {
        proof {
            use_type_invariant(self);
            lemma_entries_len(self.entries@);
        }
        self.entries.len()
    }

    /// The value of `key`.
    pub fn get(&self, key: &str) -> (r: Option<&V>)
        ensures
            match r {
                Some(v) => self@.contains_key(key@) && self@[key@] == v@,
                None => !self@.contains_key(key@),
            },
    {
        proof {
            use_type_invariant(self);
        }
        let mut i: usize = 0;
        while i < self.entries.len()
            invariant
                keys_unique(self.entries@),
                i <= self.entries@.len(),
                forall|j: int| 0 <= j < i ==> self.entries@[j].0@ != key@,
            decreases self.entries@.len() - i,
        {
            if crate::text::str_equals(self.entries[i].0.as_str(), key) {
                proof {
                    let k = key_index(self.entries@, key@);
                    assert(self.entries@[k].0@ == key@);
                }
                return Some(&self.entries[i].1);
            }
            i += 1;
        }
        None
    }

    /// Takes the entries out, leaving the map empty.
    fn take_entries(&mut self) -> (r: Vec<(String, V)>)
        ensures
            r@ == old(self).entries@,
            keys_unique(r@),
            final(self)@ == Map::<Seq<char>, V::V>::empty(),
    {
        proof {
            use_type_invariant(&*self);
        }
        let mut es: Vec<(String, V)> = Vec::new();
        std::mem::swap(&mut es, &mut self.entries);
        assert(self@ =~= Map::<Seq<char>, V::V>::empty());
        es
    }

    /// Sets `key` to `value`, replacing the value it had.
    pub fn insert(&mut self, key: String, value: V)
        ensures
            final(self)@ == old(self)@.insert(key@, value@),
    {
        let mut es = self.take_entries();
        let ghost old_entries = es@;
        match find_key(&es, key.as_str()) {
            Some(i) => {
                es.set(i, (key, value));
                proof {
                    lemma_replace_entry(old_entries, i as int, es@[i as int]);
                }
            },
            None => {
                es.push((key, value));
                proof {
                    lemma_push_entry(old_entries, es@[old_entries.len() as int]);
                }
            },
        }
        self.entries = es;
    }

    /// Takes every entry out.
    pub fn clear(&mut self)
        ensures
            final(self)@ == Map::<Seq<char>, V::V>::empty(),
    {
        self.entries = Vec::new();
        assert(self@ =~= Map::<Seq<char>, V::V>::empty());
    }

    /// Takes the entry of `key` out and hands back its value.
    pub fn remove(&mut self, key: &str) -> (r: Option<V>)
        ensures
            final(self)@ == old(self)@.remove(key@),
            match r {
                Some(v) => old(self)@.contains_key(key@) && old(self)@[key@] == v@,
                None => !old(self)@.contains_key(key@),
            },
    {
        let mut es = self.take_entries();
        let ghost old_entries = es@;
        match find_key(&es, key) {
            Some(i) => {
                let (_, value) = es.remove(i);
                proof {
                    lemma_remove_entry(old_entries, i as int);
                    let w = key_index(old_entries, key@);
                    assert(old_entries[w].0@ == key@);
                }
                self.entries = es;
                Some(value)
            },
            None => {
                assert(entries_map(old_entries) =~= entries_map(old_entries).remove(key@));
                self.entries = es;
                None
            },
        }
    }

    /// The entries, each key at most once.
    pub fn into_entries(self) -> (r: Vec<(String, V)>)
        ensures
            keys_unique(r@),
            entries_map(r@) == self@,
    {
        proof {
            use_type_invariant(&self);
        }
        self.entries
    }
}

/// The position of the entry with key `key`.
fn find_key<V>(es: &Vec<(String, V)>, key: &str) -> (r: Option<usize>)
    ensures
        match r {
            Some(i) => i < es@.len() && es@[i as int].0@ == key@,
            None => forall|j: int| 0 <= j < es@.len() ==> es@[j].0@ != key@,
        },
{
    let mut i: usize = 0;
    while i < es.len()
        invariant
            i <= es@.len(),
            forall|j: int| 0 <= j < i ==> es@[j].0@ != key@,
        decreases es@.len() - i,
    {
        if crate::text::str_equals(es[i].0.as_str(), key) {
            return Some(i);
        }
        i += 1;
    }
    None
}

/// Replacing the entry at `i` by one with the same key changes only that key's value.
proof fn lemma_replace_entry<V: View>(es: Seq<(String, V)>, i: int, e: (String, V))
    requires
        keys_unique(es),
        0 <= i < es.len(),
        es[i].0@ == e.0@,
    ensures
        keys_unique(es.update(i, e)),
        entries_map(es.update(i, e)) == entries_map(es).insert(e.0@, e.1@),
{
    let k = e.0@;
    let ns = es.update(i, e);
    assert(keys_unique(ns)) by {
        assert forall|a: int, b: int|
            0 <= a < ns.len() && 0 <= b < ns.len() && a != b implies ns[a].0@ != ns[b].0@ by {
            assert(ns[a].0@ == es[a].0@);
            assert(ns[b].0@ == es[b].0@);
        }
    }
    assert(entries_map(ns) =~= entries_map(es).insert(k, e.1@)) by {
        assert forall|q: Seq<char>| #[trigger] has_key(ns, q) == has_key(es, q) by {
            if has_key(es, q) {
                let w = key_index(es, q);
                assert(ns[w].0@ == q);
            }
            if has_key(ns, q) {
                let w = key_index(ns, q);
                assert(es[w].0@ == q);
            }
        }
        assert(has_key(es, k)) by {
            assert(es[i].0@ == k);
        }
        assert forall|q: Seq<char>| has_key(ns, q) implies entries_map(ns)[q] == entries_map(
            es,
        ).insert(k, e.1@)[q] by {
            let w = key_index(ns, q);
            if q == k {
                assert(ns[i].0@ == k);
            } else {
                let w0 = key_index(es, q);
                assert(w0 != i);
                assert(ns[w0].0@ == q);
            }
        }
    }
}

/// Adding an entry with a new key adds that key.
proof fn lemma_push_entry<V: View>(es: Seq<(String, V)>, e: (String, V))
    requires
        keys_unique(es),
        forall|j: int| 0 <= j < es.len() ==> es[j].0@ != e.0@,
    ensures
        keys_unique(es.push(e)),
        entries_map(es.push(e)) == entries_map(es).insert(e.0@, e.1@),
{
    let k = e.0@;
    let ns = es.push(e);
    let n = es.len() as int;
    assert(keys_unique(ns)) by {
        assert forall|a: int, b: int|
            0 <= a < ns.len() && 0 <= b < ns.len() && a != b implies ns[a].0@ != ns[b].0@ by {
            if a < n && b < n {
                assert(ns[a] == es[a]);
                assert(ns[b] == es[b]);
            } else if a < n {
                assert(ns[a] == es[a]);
            } else if b < n {
                assert(ns[b] == es[b]);
            }
        }
    }
    assert(entries_map(ns) =~= entries_map(es).insert(k, e.1@)) by {
        assert forall|q: Seq<char>| #[trigger] has_key(ns, q) == (has_key(es, q) || q == k) by {
            if has_key(es, q) {
                let w = key_index(es, q);
                assert(ns[w] == es[w]);
            }
            if has_key(ns, q) {
                let w = key_index(ns, q);
                if w < n {
                    assert(ns[w] == es[w]);
                }
            }
            if q == k {
                assert(ns[n].0@ == q);
            }
        }
        assert forall|q: Seq<char>| has_key(ns, q) implies entries_map(ns)[q] == entries_map(
            es,
        ).insert(k, e.1@)[q] by {
            let w = key_index(ns, q);
            if q == k {
                assert(ns[n].0@ == k);
            } else {
                let w0 = key_index(es, q);
                assert(ns[w0] == es[w0]);
            }
        }
    }
}

/// Removing the entry at `i` removes its key.
proof fn lemma_remove_entry<V: View>(es: Seq<(String, V)>, i: int)
    requires
        keys_unique(es),
        0 <= i < es.len(),
    ensures
        keys_unique(es.remove(i)),
        entries_map(es.remove(i)) == entries_map(es).remove(es[i].0@),
{
    let k = es[i].0@;
    let ns = es.remove(i);
    assert(keys_unique(ns)) by {
        assert forall|a: int, b: int|
            0 <= a < ns.len() && 0 <= b < ns.len() && a != b implies ns[a].0@ != ns[b].0@ by {
            let a0 = if a < i {
                a
            } else {
                a + 1
            };
            let b0 = if b < i {
                b
            } else {
                b + 1
            };
            assert(ns[a] == es[a0]);
            assert(ns[b] == es[b0]);
        }
    }
    assert(entries_map(ns) =~= entries_map(es).remove(k)) by {
        assert forall|q: Seq<char>| #[trigger] has_key(ns, q) == (has_key(es, q) && q != k) by {
            if has_key(ns, q) {
                let w = key_index(ns, q);
                let w0 = if w < i {
                    w
                } else {
                    w + 1
                };
                assert(ns[w] == es[w0]);
                assert(w0 != i);
            }
            if has_key(es, q) && q != k {
                let w0 = key_index(es, q);
                assert(w0 != i);
                let w = if w0 < i {
                    w0
                } else {
                    w0 - 1
                };
                assert(ns[w] == es[w0]);
            }
        }
        assert forall|q: Seq<char>| has_key(ns, q) implies entries_map(ns)[q] == entries_map(
            es,
        )[q] by {
            let w = key_index(ns, q);
            let w0 = if w < i {
                w
            } else {
                w + 1
            };
            assert(ns[w] == es[w0]);
            let v0 = key_index(es, q);
            assert(es[v0].0@ == q);
        }
    }
}

impl<T> StrMap<Vec<T>> {
    /// Appends `item` to the list of `key`, which starts empty.
    pub fn push_to(&mut self, key: &str, item: T)
        ensures
            final(self)@ == old(self)@.insert(
                key@,
                if old(self)@.contains_key(key@) {
                    old(self)@[key@]
                } else {
                    Seq::<T>::empty()
                }.push(item),
            ),
    {
        let list = match self.remove(key) {
            Some(mut list) => {
                list.push(item);
                list
            },
            None => {
                let mut list = Vec::new();
                list.push(item);
                list
            },
        };
        self.insert(key.to_owned(), list);
        proof {
            assert(self@ =~= old(self)@.insert(
                key@,
                if old(self)@.contains_key(key@) {
                    old(self)@[key@]
                } else {
                    Seq::<T>::empty()
                }.push(item),
            ));
        }
    }
}

} // verus!
