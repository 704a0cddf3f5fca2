//! A small map from text keys to values, kept as a list of entries in which no
//! key occurs twice. Save files store these maps as JSON objects.

use vstd::prelude::*;

verus! {

/// Entries of a text-keyed map; no key occurs twice.
#[derive(Debug, Clone)]
pub struct KeyedList<V> {
    pub entries: Vec<(String, V)>,
}

/// No two entries share a key.
pub open spec fn keys_distinct<V>(s: Seq<(String, V)>) -> bool {
    forall|i: int, j: int| 0 <= i < j < s.len() ==> s[i].0@ != s[j].0@
}

/// Whether some entry has key `k`.
pub open spec fn has_key<V>(s: Seq<(String, V)>, k: Seq<char>) -> bool {
    exists|i: int| 0 <= i < s.len() && s[i].0@ == k
}

/// The map the entries stand for.
pub open spec fn entries_map<V>(s: Seq<(String, V)>) -> Map<Seq<char>, V> {
    Map::new(
        |k: Seq<char>| has_key(s, k),
        |k: Seq<char>| s[choose|i: int| 0 <= i < s.len() && s[i].0@ == k].1,
    )
}

/// With distinct keys, the map holds each entry's value under its key.
pub proof fn lemma_entry_value<V>(s: Seq<(String, V)>, i: int)
    requires
        keys_distinct(s),
        0 <= i < s.len(),
    ensures
        entries_map(s).contains_key(s[i].0@),
        entries_map(s)[s[i].0@] == s[i].1,
{
    let k = s[i].0@;
    assert(has_key(s, k));
    let j = choose|j: int| 0 <= j < s.len() && s[j].0@ == k;
    if j != i {
        if j < i {
            assert(s[j].0@ != s[i].0@);
        } else {
            assert(s[i].0@ != s[j].0@);
        }
    }
}

impl<V> View for KeyedList<V> {
    type V = Map<Seq<char>, V>;

    open spec fn view(&self) -> Map<Seq<char>, V> {
        entries_map(self.entries@)
    }
}

impl<V> KeyedList<V> {
    pub open spec fn wf(&self) -> bool {
        keys_distinct(self.entries@)
    }

    /// An empty map.
    pub fn new() -> (r: Self)
        ensures
            r.wf(),
            r@ == Map::<Seq<char>, V>::empty(),
    {
        let r = KeyedList { entries: Vec::new() };
        assert(r@ =~= Map::<Seq<char>, V>::empty());
        r
    }

    /// Index of the entry with key `k`, if any.
    pub fn find(&self, k: &str) -> (r: Option<usize>)
        ensures
            match r {
                Some(i) => i < self.entries@.len() && self.entries@[i as int].0@ == k@,
                None => !has_key(self.entries@, k@),
            },
    {
        let mut i: usize = 0;
        while i < self.entries.len()
            invariant
                i <= self.entries@.len(),
                forall|j: int| 0 <= j < i ==> self.entries@[j].0@ != k@,
            decreases self.entries@.len() - i,
        {
            if crate::text::str_eq(self.entries[i].0.as_str(), k) {
                return Some(i);
            }
            i = i + 1;
        }
        None
    }

    /// The value stored under `k`, if any.
    pub fn get(&self, k: &str) -> (r: Option<&V>)
        requires
            self.wf(),
        ensures
            match r {
                Some(v) => self@.contains_key(k@) && *v == self@[k@],
                None => !self@.contains_key(k@),
            },
    {
        match self.find(k) {
            Some(i) => {
                proof {
                    lemma_entry_value(self.entries@, i as int);
                }
                Some(&self.entries[i].1)
            },
            None => None,
        }
    }

    /// Stores `v` under `k`, replacing any previous value.
    pub fn insert(&mut self, k: String, v: V)
        requires
            old(self).wf(),
        ensures
            final(self).wf(),
            final(self)@ == old(self)@.insert(k@, v),
    {
        let ghost old_entries = self.entries@;
        match self.find(k.as_str()) {
            Some(i) => {
                self.entries.set(i, (k, v));
                proof {
                    let s = self.entries@;
                    assert(keys_distinct(s));
                    assert forall|key: Seq<char>| #![auto] has_key(s, key) == (has_key(old_entries, key)) by {
                        if has_key(old_entries, key) {
                            let j = choose|j: int| 0 <= j < old_entries.len() && old_entries[j].0@ == key;
                            assert(s[j].0@ == key);
                        }
                        if has_key(s, key) {
                            let j = choose|j: int| 0 <= j < s.len() && s[j].0@ == key;
                            assert(old_entries[j].0@ == key);
                        }
                    }
                    assert forall|key: Seq<char>| #[trigger] entries_map(s).contains_key(key) implies entries_map(s)[key]
                        == old_entries_map_insert(old_entries, k@, v)[key] by {
                        let j = choose|j: int| 0 <= j < s.len() && s[j].0@ == key;
                        lemma_entry_value(s, j);
                        if j != i {
                            lemma_entry_value(old_entries, j);
                        }
                    }
                    assert(entries_map(s) =~= entries_map(old_entries).insert(k@, v));
                }
            },
            None => {
                self.entries.push((k, v));
                proof {
                    let s = self.entries@;
                    assert(keys_distinct(s));
                    assert forall|key: Seq<char>| #[trigger] entries_map(s).contains_key(key) implies entries_map(s)[key]
                        == old_entries_map_insert(old_entries, k@, v)[key] by {
                        let j = choose|j: int| 0 <= j < s.len() && s[j].0@ == key;
                        lemma_entry_value(s, j);
                        if j < old_entries.len() {
                            lemma_entry_value(old_entries, j);
                        }
                    }
                    assert forall|key: Seq<char>| #![auto] has_key(s, key) == (has_key(old_entries, key) || key == k@) by {
                        if has_key(old_entries, key) {
                            let j = choose|j: int| 0 <= j < old_entries.len() && old_entries[j].0@ == key;
                            assert(s[j].0@ == key);
                        }
                        if key == k@ {
                            assert(s[old_entries.len() as int].0@ == key);
                        }
                    }
                    assert(entries_map(s) =~= entries_map(old_entries).insert(k@, v));
                }
            },
        }
    }

    /// Drops the entry stored under `k`, if any.
    pub fn remove(&mut self, k: &str)
        requires
            old(self).wf(),
        ensures
            final(self).wf(),
            final(self)@ == old(self)@.remove(k@),
            has_key(old(self).entries@, k@) ==> final(self).entries@.len() + 1 == old(self).entries@.len(),
    {
        let ghost old_entries = self.entries@;
        match self.find(k) {
            Some(i) => {
                let _ = self.entries.remove(i);
                proof {
                    let s = self.entries@;
                    assert(s =~= old_entries.remove(i as int));
                    assert(keys_distinct(s));
                    assert forall|key: Seq<char>| #![auto] has_key(s, key) == (has_key(old_entries, key) && key != k@) by {
                        if has_key(old_entries, key) && key != k@ {
                            let j = choose|j: int| 0 <= j < old_entries.len() && old_entries[j].0@ == key;
                            if j < i {
                                assert(s[j].0@ == key);
                            } else {
                                assert(j != i);
                                assert(s[j - 1].0@ == key);
                            }
                        }
                        if has_key(s, key) {
                            let j = choose|j: int| 0 <= j < s.len() && s[j].0@ == key;
                            if j < i {
                                assert(old_entries[j].0@ == key);
                                assert(old_entries[j].0@ != old_entries[i as int].0@);
                            } else {
                                assert(old_entries[j + 1].0@ == key);
                                assert(old_entries[i as int].0@ != old_entries[j + 1].0@);
                            }
                        }
                    }
                    assert forall|key: Seq<char>| #[trigger] entries_map(s).contains_key(key) implies entries_map(s)[key]
                        == entries_map(old_entries)[key] by {
                        let j = choose|j: int| 0 <= j < s.len() && s[j].0@ == key;
                        lemma_entry_value(s, j);
                        if j < i {
                            lemma_entry_value(old_entries, j);
                        } else {
                            lemma_entry_value(old_entries, j + 1);
                        }
                    }
                    assert(entries_map(s) =~= entries_map(old_entries).remove(k@));
                }
            },
            None => {
                assert(entries_map(old_entries) =~= entries_map(old_entries).remove(k@));
            },
        }
    }
}

/// The map of `s` with `v` stored under `k`.
pub open spec fn old_entries_map_insert<V>(s: Seq<(String, V)>, k: Seq<char>, v: V) -> Map<Seq<char>, V> {
    entries_map(s).insert(k, v)
}

} // verus!
