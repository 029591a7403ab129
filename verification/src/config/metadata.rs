//! String-keyed metadata of devices and sites: an association list in which
//! no key occurs twice, so that it behaves as a map.

use vstd::prelude::*;

use crate::text::{owned, str_eq};

verus! {

/// The value of `key` in `entries`: that of its first entry.
pub open spec fn lookup(entries: Seq<(String, String)>, key: Seq<char>) -> Option<Seq<char>>
    decreases entries.len(),
{
    if entries.len() == 0 {
        None
    } else if entries[0].0@ == key {
        Some(entries[0].1@)
    } else {
        lookup(entries.drop_first(), key)
    }
}

/// Index of the first entry whose key is `key`.
pub open spec fn key_index(entries: Seq<(String, String)>, key: Seq<char>) -> Option<int>
    decreases entries.len(),
{
    if entries.len() == 0 {
        None
    } else if entries[0].0@ == key {
        Some(0)
    } else {
        match key_index(entries.drop_first(), key) {
            Some(i) => Some(i + 1),
            None => None,
        }
    }
}

/// `key_index` finds the first entry with the key, and `lookup` gives its value.
pub proof fn lemma_key_index(entries: Seq<(String, String)>, key: Seq<char>)
    ensures
        match key_index(entries, key) {
            Some(i) => 0 <= i < entries.len() && entries[i].0@ == key
                && (forall|j: int| 0 <= j < i ==> entries[j].0@ != key)
                && lookup(entries, key) == Some(entries[i].1@),
            None => (forall|j: int| 0 <= j < entries.len() ==> entries[j].0@ != key)
                && lookup(entries, key).is_none(),
        },
    decreases entries.len(),
{
    if entries.len() > 0 {
        lemma_key_index(entries.drop_first(), key);
        if entries[0].0@ != key {
            match key_index(entries.drop_first(), key) {
                Some(i) => {
                    assert forall|j: int| 0 <= j < i + 1 implies entries[j].0@ != key by {
                        if j > 0 {
                            assert(entries[j] == entries.drop_first()[j - 1]);
                        }
                    }
                },
                None => {
                    assert forall|j: int| 0 <= j < entries.len() implies entries[j].0@ != key by {
                        if j > 0 {
                            assert(entries[j] == entries.drop_first()[j - 1]);
                        }
                    }
                },
            }
        }
    }
}

/// No key occurs twice among `entries`.
pub open spec fn keys_distinct(entries: Seq<(String, String)>) -> bool {
    forall|i: int, j: int| 0 <= i < j < entries.len() ==> #[trigger] entries[i].0@ != #[trigger] entries[j].0@
}

/// No key occurs twice among literal pairs.
pub open spec fn str_keys_distinct(pairs: Seq<(&str, &str)>) -> bool {
    forall|i: int, j: int| 0 <= i < j < pairs.len() ==> #[trigger] pairs[i].0@ != #[trigger] pairs[j].0@
}

/// Key/value metadata. Its well-formedness, `wf`, is that no key occurs twice;
/// every operation here keeps it.
#[derive(Debug)]
pub struct Metadata {
    pub entries: Vec<(String, String)>,
}

/// Position of the first entry of `key` in `entries`, if there is one.
pub(crate) fn find_key(entries: &Vec<(String, String)>, key: &str) -> (r: Option<usize>)
    ensures
        r matches Some(i) ==> Some(i as int) == key_index(entries@, key@),
        r is None ==> key_index(entries@, key@) is None,
{
    let mut i: usize = 0;
    proof {
        assert(entries@.skip(0) =~= entries@);
    }
    while i < entries.len()
        invariant
            i <= entries.len(),
            key_index(entries@, key@) == (match key_index(entries@.skip(i as int), key@) {
                Some(j) => Some(j + i),
                None => None,
            }),
        decreases entries.len() - i,
    {
        proof {
            assert(entries@.skip(i as int).drop_first() =~= entries@.skip(i + 1));
        }
        if str_eq(entries[i].0.as_str(), key) {
            return Some(i);
        }
        i += 1;
    }
    None
}

/// The value of the first entry of `key` in `entries`.
pub(crate) fn lookup_value(entries: &Vec<(String, String)>, key: &str) -> (r: Option<String>)
    ensures
        match lookup(entries@, key@) {
            Some(v) => r matches Some(x) && x@ == v,
            None => r is None,
        },
{
    proof {
        lemma_key_index(entries@, key@);
    }
    match find_key(entries, key) {
        Some(i) => Some(entries[i].1.clone()),
        None => None,
    }
}

impl Clone for Metadata {
    fn clone(&self) -> (r: Self)
        ensures
            r.entries@ == self.entries@,
    {
        let mut entries: Vec<(String, String)> = Vec::new();
        let mut i: usize = 0;
        while i < self.entries.len()
            invariant
                i <= self.entries.len(),
                entries@ == self.entries@.take(i as int),
            decreases self.entries.len() - i,
        {
            let k = self.entries[i].0.clone();
            let v = self.entries[i].1.clone();
            entries.push((k, v));
            proof {
                assert(self.entries@.take(i + 1) =~= self.entries@.take(i as int).push(self.entries@[i as int]));
            }
            i += 1;
        }
        proof {
            assert(self.entries@.take(self.entries.len() as int) =~= self.entries@);
        }
        Metadata { entries }
    }
}

impl Metadata {
    pub open spec fn spec_get(&self, key: Seq<char>) -> Option<Seq<char>> {
        lookup(self.entries@, key)
    }

    /// No key occurs twice.
    pub open spec fn wf(&self) -> bool {
        keys_distinct(self.entries@)
    }

    /// Empty metadata.
    pub fn new() -> (m: Self)
        ensures
            m.wf(),
            m.entries@.len() == 0,
            forall|k: Seq<char>| m.spec_get(k).is_none(),
    {
        Metadata { entries: Vec::new() }
    }

    /// The value stored under `key`.
    pub fn get(&self, key: &str) -> (r: Option<String>)
        ensures
            r matches Some(v) ==> self.spec_get(key@) == Some(v@),
            r is None ==> self.spec_get(key@) is None,
    {
        lookup_value(&self.entries, key)
    }

    /// Stores `value` under `key`, replacing the value it had in place, or
    /// adding the entry at the end.
    pub fn insert(&mut self, key: String, value: String)
        ensures
            final(self).spec_get(key@) == Some(value@),
            forall|k: Seq<char>| k != key@ ==> #[trigger] final(self).spec_get(k) == old(self).spec_get(k),
            old(self).wf() ==> final(self).wf(),
            key_index(old(self).entries@, key@) matches Some(i) ==> final(self).entries@ == old(
                self,
            ).entries@.update(i, (key, value)),
            key_index(old(self).entries@, key@) is None ==> final(self).entries@ == old(self).entries@.push(
                (key, value),
            ),
    {
        proof {
            lemma_key_index(self.entries@, key@);
        }
        match find_key(&self.entries, key.as_str()) {
            Some(i) => {
                let ghost old_entries = self.entries@;
                self.entries.set(i, (key, value));
                proof {
                    let ne = self.entries@;
                    assert forall|x: int| 0 <= x < ne.len() implies ne[x].0@ == old_entries[x].0@ by {}
                    if keys_distinct(old_entries) {
                        assert forall|a: int, b: int| 0 <= a < b < ne.len() implies #[trigger] ne[a].0@
                            != #[trigger] ne[b].0@ by {
                            assert(ne[a].0@ == old_entries[a].0@);
                            assert(ne[b].0@ == old_entries[b].0@);
                        }
                    }
                    lemma_key_index(ne, key@);
                    match key_index(ne, key@) {
                        Some(j2) => {
                            if j2 < i {
                                assert(ne[j2] == old_entries[j2]);
                            } else if j2 > i {
                                assert(ne[i as int].0@ == key@);
                            }
                        },
                        None => {
                            assert(ne[i as int].0@ == key@);
                        },
                    }
                    assert forall|k: Seq<char>| k != key@ implies #[trigger] lookup(ne, k) == lookup(old_entries, k) by {
                        lemma_key_index(ne, k);
                        lemma_key_index(old_entries, k);
                        match key_index(old_entries, k) {
                            Some(j) => {
                                assert(ne[j] == old_entries[j]);
                                match key_index(ne, k) {
                                    Some(j2) => {
                                        assert(ne[j2] == old_entries[j2]);
                                    },
                                    None => {},
                                }
                            },
                            None => {
                                match key_index(ne, k) {
                                    Some(j2) => {
                                        assert(ne[j2] == old_entries[j2]);
                                    },
                                    None => {},
                                }
                            },
                        }
                    }
                }
            },
            None => {
                let ghost old_entries = self.entries@;
                self.entries.push((key, value));
                proof {
                    let ne = self.entries@;
                    if keys_distinct(old_entries) {
                        assert forall|a: int, b: int| 0 <= a < b < ne.len() implies #[trigger] ne[a].0@
                            != #[trigger] ne[b].0@ by {
                            if b == old_entries.len() {
                                assert(old_entries[a].0@ != key@);
                            } else {
                                assert(ne[a] == old_entries[a]);
                                assert(ne[b] == old_entries[b]);
                            }
                        }
                    }
                    lemma_key_index(ne, key@);
                    assert forall|k: Seq<char>| k != key@ implies #[trigger] lookup(ne, k) == lookup(old_entries, k) by {
                        lemma_key_index(ne, k);
                        lemma_key_index(old_entries, k);
                        match key_index(old_entries, k) {
                            Some(j) => {
                                assert(ne[j] == old_entries[j]);
                                match key_index(ne, k) {
                                    Some(j2) => {
                                        if j2 < old_entries.len() {
                                            assert(ne[j2] == old_entries[j2]);
                                        }
                                    },
                                    None => {},
                                }
                            },
                            None => {
                                match key_index(ne, k) {
                                    Some(j2) => {
                                        if j2 < old_entries.len() {
                                            assert(ne[j2] == old_entries[j2]);
                                        }
                                    },
                                    None => {},
                                }
                            },
                        }
                    }
                    match key_index(ne, key@) {
                        Some(j2) => {
                            if j2 < old_entries.len() {
                                assert(ne[j2] == old_entries[j2]);
                            }
                        },
                        None => {
                            assert(ne[old_entries.len() as int].0@ == key@);
                        },
                    }
                }
            },
        }
    }

    /// Number of entries: of keys, where no key occurs twice.
    pub fn len(&self) -> (n: usize)
        ensures
            n == self.entries@.len(),
    {
        self.entries.len()
    }
}

/// Metadata built from literal pairs with distinct keys, in order.
pub(crate) fn metadata_from_pairs(pairs: &[(&str, &str)]) -> (m: Metadata)
    requires
        str_keys_distinct(pairs@),
    ensures
        m.wf(),
        m.entries@.len() == pairs@.len(),
        forall|i: int| #![trigger m.entries@[i]] 0 <= i < pairs@.len() ==> m.entries@[i].0@ == pairs@[i].0@
            && m.entries@[i].1@ == pairs@[i].1@,
{
    let mut entries: Vec<(String, String)> = Vec::new();
    let mut i: usize = 0;
    while i < pairs.len()
        invariant
            i <= pairs.len(),
            entries@.len() == i,
            forall|j: int| #![trigger entries@[j]] 0 <= j < i ==> entries@[j].0@ == pairs@[j].0@
                && entries@[j].1@ == pairs@[j].1@,
        decreases pairs.len() - i,
    {
        let (k, v) = pairs[i];
        entries.push((owned(k), owned(v)));
        i += 1;
    }
    proof {
        assert forall|a: int, b: int| 0 <= a < b < entries@.len() implies #[trigger] entries@[a].0@
            != #[trigger] entries@[b].0@ by {
            assert(entries@[a].0@ == pairs@[a].0@);
            assert(entries@[b].0@ == pairs@[b].0@);
        }
    }
    Metadata { entries }
}

} // verus!
