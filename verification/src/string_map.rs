//! A small map from strings to values, kept as a list of entries.
//!
//! Every list of entries denotes a map: lookup scans from the front and
//! the first entry with a matching key decides. A `StringMap` never holds
//! two entries for one key, so its entries are exactly the pairs of the
//! map it denotes.

use vstd::prelude::*;

verus! {

/// One key with the value stored under it.
pub struct Entry<V> {
    pub key: String,
    pub value: V,
}

/// The map that a list of entries denotes: the first entry for a key wins.
pub open spec fn entries_map<V>(s: Seq<Entry<V>>) -> Map<Seq<char>, V>
    decreases s.len(),
{
    if s.len() == 0 {
        Map::empty()
    } else {
        let front = entries_map(s.drop_last());
        if front.contains_key(s.last().key@) {
            front
        } else {
            front.insert(s.last().key@, s.last().value)
        }
    }
}

/// A key is in the denoted map exactly when some entry carries it.
pub proof fn lemma_entries_map_domain<V>(s: Seq<Entry<V>>, k: Seq<char>)
    ensures
        entries_map(s).contains_key(k) <==> exists|i: int| 0 <= i < s.len() && (#[trigger] s[i]).key@ == k,
    decreases s.len(),
{
    if s.len() > 0 {
        let front = s.drop_last();
        lemma_entries_map_domain(front, k);
        if entries_map(s).contains_key(k) {
            if entries_map(front).contains_key(k) {
                let i = choose|i: int| 0 <= i < front.len() && (#[trigger] front[i]).key@ == k;
                assert(s[i].key@ == k);
            } else {
                assert(s[s.len() - 1].key@ == k);
            }
        }
        if exists|i: int| 0 <= i < s.len() && (#[trigger] s[i]).key@ == k {
            let i = choose|i: int| 0 <= i < s.len() && (#[trigger] s[i]).key@ == k;
            if i < front.len() {
                assert(front[i].key@ == k);
            }
        }
    }
}

/// The first entry that carries a key holds the value the map gives it.
pub proof fn lemma_entries_map_first<V>(s: Seq<Entry<V>>, i: int)
    requires
        0 <= i < s.len(),
        forall|j: int| 0 <= j < i ==> (#[trigger] s[j]).key@ != s[i].key@,
    ensures
        entries_map(s).contains_key(s[i].key@),
        entries_map(s)[s[i].key@] == s[i].value,
    decreases s.len(),
{
    let front = s.drop_last();
    let k = s[i].key@;
    if i < s.len() - 1 {
        assert(front[i] == s[i]);
        assert forall|j: int| 0 <= j < i implies (#[trigger] front[j]).key@ != front[i].key@ by {
            assert(front[j] == s[j]);
        }
        lemma_entries_map_first(front, i);
    } else {
        lemma_entries_map_domain(front, k);
        if entries_map(front).contains_key(k) {
            let j = choose|j: int| 0 <= j < front.len() && (#[trigger] front[j]).key@ == k;
            assert(s[j] == front[j]);
        }
    }
}

/// Replacing the first entry for a key by a new value for the same key
/// is an insertion into the denoted map.
pub proof fn lemma_entries_map_replace<V>(s: Seq<Entry<V>>, i: int, e: Entry<V>)
    requires
        0 <= i < s.len(),
        e.key@ == s[i].key@,
        forall|j: int| 0 <= j < i ==> (#[trigger] s[j]).key@ != s[i].key@,
    ensures
        entries_map(s.update(i, e)) =~= entries_map(s).insert(e.key@, e.value),
    decreases s.len(),
{
    let t = s.update(i, e);
    let front = s.drop_last();
    if i < s.len() - 1 {
        assert(front[i] == s[i]);
        assert forall|j: int| 0 <= j < i implies (#[trigger] front[j]).key@ != front[i].key@ by {
            assert(front[j] == s[j]);
        }
        lemma_entries_map_replace(front, i, e);
        assert(t.drop_last() =~= front.update(i, e));
        assert(t.last() == s.last());
        lemma_entries_map_first(front, i);
    } else {
        assert(t.drop_last() =~= front);
        lemma_entries_map_domain(front, e.key@);
        if entries_map(front).contains_key(e.key@) {
            let j = choose|j: int| 0 <= j < front.len() && (#[trigger] front[j]).key@ == e.key@;
            assert(s[j] == front[j]);
        }
    }
}

/// Whether no key occurs twice in a list of entries.
pub open spec fn distinct_keys<V>(s: Seq<Entry<V>>) -> bool {
    forall|i: int, j: int| 0 <= i < j < s.len() ==> (#[trigger] s[i]).key@ != (#[trigger] s[j]).key@
}

/// A map from strings to `V`.
pub struct StringMap<V> {
    entries: Vec<Entry<V>>,
}

impl<V> View for StringMap<V> {
    type V = Map<Seq<char>, V>;

    closed spec fn view(&self) -> Map<Seq<char>, V> {
        entries_map(self.entries@)
    }
}

impl<V> StringMap<V> {
    #[verifier::type_invariant]
    spec fn no_key_twice(&self) -> bool {
        distinct_keys(self.entries@)
    }

    /// The entries of the map, in the order in which their keys first
    /// came in.
    pub closed spec fn pairs(&self) -> Seq<Entry<V>> {
        self.entries@
    }

    /// The empty map.
    pub fn new() -> (m: Self)
        ensures
            m@ == Map::<Seq<char>, V>::empty(),
            m.pairs().len() == 0,
    {
        StringMap { entries: Vec::new() }
    }

    /// Number of entries, which is the number of keys.
    pub fn len(&self) -> (n: usize)
        ensures
            n == self.pairs().len(),
    {
        self.entries.len()
    }

    /// Position of the first entry with the given key, if there is one.
    pub fn position(&self, key: &String) -> (r: Option<usize>)
        ensures
            match r {
                Some(i) => i < self.pairs().len() && self.pairs()[i as int].key@ == key@,
                None => forall|j: int| 0 <= j < self.pairs().len() ==> (#[trigger] self.pairs()[j]).key@ != key@,
            },
            r.is_some() <==> self@.contains_key(key@),
    {
        find_key(&self.entries, key)
    }

    /// Stores `value` under `key`, replacing what was stored there before.
    /// An entry that is replaced keeps its place; a new key goes to the
    /// end.
    pub fn insert(&mut self, key: String, value: V)
        ensures
            final(self)@ == old(self)@.insert(key@, value),
            old(self)@.contains_key(key@) ==> final(self).pairs().len() == old(self).pairs().len(),
            !old(self)@.contains_key(key@) ==> final(self).pairs() == old(self).pairs().push(
                Entry { key, value },
            ),
    {
        proof {
            use_type_invariant(&*self);
        }
        let mut entries: Vec<Entry<V>> = Vec::new();
        std::mem::swap(&mut entries, &mut self.entries);
        let ghost before = entries@;
        let found = find_key(&entries, &key);
        let entry = Entry { key, value };
        match found {
            Some(i) => {
                proof {
                    lemma_entries_map_replace(before, i as int, entry);
                }
                entries.set(i, entry);
                assert forall|a: int, b: int| 0 <= a < b < entries@.len() implies (#[trigger] entries@[a]).key@
                    != (#[trigger] entries@[b]).key@ by {
                    assert(entries@[a].key@ == before[a].key@);
                    assert(entries@[b].key@ == before[b].key@);
                }
            },
            None => {
                proof {
                    lemma_entries_map_domain(before, entry.key@);
                    assert(before.push(entry).drop_last() =~= before);
                }
                entries.push(entry);
                assert forall|a: int, b: int| 0 <= a < b < entries@.len() implies (#[trigger] entries@[a]).key@
                    != (#[trigger] entries@[b]).key@ by {
                    if b < before.len() {
                        assert(entries@[a] == before[a]);
                        assert(entries@[b] == before[b]);
                    } else {
                        assert(entries@[a] == before[a]);
                    }
                }
            },
        }
        self.entries = entries;
    }

    /// The value stored under `key`, if any.
    pub fn get(&self, key: &String) -> (r: Option<&V>)
        ensures
            match r {
                Some(v) => self@.contains_key(key@) && *v == self@[key@],
                None => !self@.contains_key(key@),
            },
    {
        match find_key(&self.entries, key) {
            Some(i) => {
                proof {
                    lemma_entries_map_first(self.entries@, i as int);
                }
                Some(&self.entries[i].value)
            },
            None => None,
        }
    }

    /// Hands the entries out, each key once.
    pub fn into_entries(self) -> (entries: Vec<Entry<V>>)
        ensures
            entries@ == self.pairs(),
            distinct_keys(entries@),
            entries_map(entries@) == self@,
    {
        proof {
            use_type_invariant(&self);
        }
        self.entries
    }
}

/// Position of the first entry with the given key, if there is one.
fn find_key<V>(entries: &Vec<Entry<V>>, key: &String) -> (r: Option<usize>)
    ensures
        match r {
            Some(i) => i < entries@.len() && entries@[i as int].key@ == key@
                && forall|j: int| 0 <= j < i ==> (#[trigger] entries@[j]).key@ != key@,
            None => forall|j: int| 0 <= j < entries@.len() ==> (#[trigger] entries@[j]).key@ != key@,
        },
        r.is_some() <==> entries_map(entries@).contains_key(key@),
{
    let mut i: usize = 0;
    while i < entries.len()
        invariant
            i <= entries@.len(),
            forall|j: int| 0 <= j < i ==> (#[trigger] entries@[j]).key@ != key@,
        decreases entries@.len() - i,
    {
        if entries[i].key == *key {
            proof {
                lemma_entries_map_first(entries@, i as int);
            }
            return Some(i);
        }
        i += 1;
    }
    proof {
        lemma_entries_map_domain(entries@, key@);
    }
    None
}

} // verus!
