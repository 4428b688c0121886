//! A small map from strings to values, kept as a list of entries in the order
//! in which their keys first came.

use vstd::prelude::*;
use vstd::string::*;

verus! {

/// One key with its value.
#[derive(Debug)]
pub struct Entry<V> {
    pub key: String,
    pub value: V,
}

/// Whether some entry of the list has the key.
pub open spec fn has_key<V>(s: Seq<Entry<V>>, k: Seq<char>) -> bool {
    exists|i: int| 0 <= i < s.len() && (#[trigger] s[i]).key@ == k
}

/// The place of an entry that has the key.
pub open spec fn index_of_key<V>(s: Seq<Entry<V>>, k: Seq<char>) -> int {
    choose|i: int| 0 <= i < s.len() && (#[trigger] s[i]).key@ == k
}

/// No two entries of the list have the same key.
pub open spec fn distinct_keys<V>(s: Seq<Entry<V>>) -> bool {
    forall|i: int, j: int|
        0 <= i < j < s.len() ==> (#[trigger] s[i]).key@ != (#[trigger] s[j]).key@
}

/// The map that a list of entries stands for.
pub open spec fn as_map<V>(s: Seq<Entry<V>>) -> Map<Seq<char>, V> {
    Map::new(|k: Seq<char>| has_key(s, k), |k: Seq<char>| s[index_of_key(s, k)].value)
}

/// In a list without repeated keys, the key of an entry leads back to it.
pub proof fn lemma_entry_found<V>(s: Seq<Entry<V>>, i: int)
    requires
        distinct_keys(s),
        0 <= i < s.len(),
    ensures
        has_key(s, s[i].key@),
        index_of_key(s, s[i].key@) == i,
        as_map(s).contains_key(s[i].key@),
        as_map(s)[s[i].key@] == s[i].value,
{
    let k = s[i].key@;
    let j = index_of_key(s, k);
    assert(0 <= j < s.len() && s[j].key@ == k);
    if j < i {
        assert(s[j].key@ != s[i].key@);
    } else if i < j {
        assert(s[i].key@ != s[j].key@);
    }
}

/// Adding an entry with a new key at the end inserts it into the map.
pub proof fn lemma_push<V>(s: Seq<Entry<V>>, e: Entry<V>)
    requires
        distinct_keys(s),
        !has_key(s, e.key@),
    ensures
        distinct_keys(s.push(e)),
        as_map(s.push(e)) == as_map(s).insert(e.key@, e.value),
{
    let t = s.push(e);
    assert forall|i: int, j: int| 0 <= i < j < t.len() implies (#[trigger] t[i]).key@ != (
    #[trigger] t[j]).key@ by {
        if j < s.len() {
            assert(s[i].key@ != s[j].key@);
        } else {
            assert(s[i].key@ != e.key@);
        }
    }
    assert forall|k: Seq<char>| has_key(t, k) == (k == e.key@ || has_key(s, k)) by {
        if has_key(t, k) {
            let i = index_of_key(t, k);
            if i < s.len() {
                assert(s[i].key@ == k);
            }
        }
        if k == e.key@ {
            assert(t[s.len() as int].key@ == k);
        }
        if has_key(s, k) {
            let i = index_of_key(s, k);
            assert(t[i].key@ == k);
        }
    }
    assert forall|k: Seq<char>| has_key(t, k) implies as_map(t)[k] == as_map(s).insert(
        e.key@,
        e.value,
    )[k] by {
        let i = index_of_key(t, k);
        lemma_entry_found(t, i);
        if i < s.len() {
            lemma_entry_found(s, i);
        }
    }
    assert(as_map(t) =~= as_map(s).insert(e.key@, e.value));
}

/// Putting an entry in the place of one with the same key inserts it into the
/// map.
pub proof fn lemma_update<V>(s: Seq<Entry<V>>, i: int, e: Entry<V>)
    requires
        distinct_keys(s),
        0 <= i < s.len(),
        e.key@ == s[i].key@,
    ensures
        distinct_keys(s.update(i, e)),
        as_map(s.update(i, e)) == as_map(s).insert(e.key@, e.value),
{
    let t = s.update(i, e);
    assert forall|a: int, b: int| 0 <= a < b < t.len() implies (#[trigger] t[a]).key@ != (
    #[trigger] t[b]).key@ by {
        assert(s[a].key@ != s[b].key@);
    }
    assert forall|k: Seq<char>| has_key(t, k) == has_key(s, k) by {
        if has_key(t, k) {
            let j = index_of_key(t, k);
            assert(s[j].key@ == k);
        }
        if has_key(s, k) {
            let j = index_of_key(s, k);
            assert(t[j].key@ == k);
        }
    }
    lemma_entry_found(s, i);
    assert forall|k: Seq<char>| has_key(t, k) implies as_map(t)[k] == as_map(s).insert(
        e.key@,
        e.value,
    )[k] by {
        let j = index_of_key(t, k);
        lemma_entry_found(t, j);
        lemma_entry_found(s, j);
    }
    assert(as_map(t) =~= as_map(s).insert(e.key@, e.value));
}

/// Taking an entry out of the list removes its key from the map.
pub proof fn lemma_remove<V>(s: Seq<Entry<V>>, i: int)
    requires
        distinct_keys(s),
        0 <= i < s.len(),
    ensures
        distinct_keys(s.remove(i)),
        as_map(s.remove(i)) == as_map(s).remove(s[i].key@),
{
    let t = s.remove(i);
    let gone = s[i].key@;
    assert forall|a: int, b: int| 0 <= a < b < t.len() implies (#[trigger] t[a]).key@ != (
    #[trigger] t[b]).key@ by {
        let a0 = if a < i { a } else { a + 1 };
        let b0 = if b < i { b } else { b + 1 };
        assert(s[a0].key@ != s[b0].key@);
    }
    assert forall|k: Seq<char>| has_key(t, k) == (k != gone && has_key(s, k)) by {
        if has_key(t, k) {
            let j = index_of_key(t, k);
            let j0 = if j < i { j } else { j + 1 };
            assert(s[j0].key@ == k);
            if j0 < i {
                assert(s[j0].key@ != s[i].key@);
            } else {
                assert(s[i].key@ != s[j0].key@);
            }
        }
        if k != gone && has_key(s, k) {
            let j0 = index_of_key(s, k);
            let j = if j0 < i { j0 } else { j0 - 1 };
            assert(t[j].key@ == k);
        }
    }
    assert forall|k: Seq<char>| has_key(t, k) implies as_map(t)[k] == as_map(s).remove(gone)[k] by {
        let j = index_of_key(t, k);
        let j0 = if j < i { j } else { j + 1 };
        lemma_entry_found(t, j);
        lemma_entry_found(s, j0);
    }
    assert(as_map(t) =~= as_map(s).remove(gone));
}

/// The keys of the entries, in their order.
pub open spec fn keys_of<V>(s: Seq<Entry<V>>) -> Seq<Seq<char>> {
    s.map_values(|e: Entry<V>| e.key@)
}

/// A list without repeated keys stands for a finite map with as many keys as
/// the list has entries: the keys of the entries, each of them once.
pub proof fn lemma_len<V>(s: Seq<Entry<V>>)
    requires
        distinct_keys(s),
    ensures
        keys_of(s).no_duplicates(),
        keys_of(s).to_set() == as_map(s).dom(),
        as_map(s).dom().finite(),
        as_map(s).len() == s.len(),
{
    let keys = keys_of(s);
    assert forall|i: int, j: int| 0 <= i < keys.len() && 0 <= j < keys.len() && i != j implies keys[i]
        != keys[j] by {
        if i < j {
            assert(s[i].key@ != s[j].key@);
        } else {
            assert(s[j].key@ != s[i].key@);
        }
    }
    assert forall|k: Seq<char>| keys.to_set().contains(k) == as_map(s).dom().contains(k) by {
        if keys.to_set().contains(k) {
            let i = choose|i: int| 0 <= i < keys.len() && keys[i] == k;
            assert(s[i].key@ == k);
        }
        if as_map(s).dom().contains(k) {
            let i = index_of_key(s, k);
            assert(keys[i] == k);
        }
    }
    assert(keys.to_set() =~= as_map(s).dom());
    keys.unique_seq_to_set();
}

/// A map from strings to values.
#[derive(Debug)]
pub struct Assoc<V> {
    entries: Vec<Entry<V>>,
}

impl<V> View for Assoc<V> {
    type V = Map<Seq<char>, V>;

    closed spec fn view(&self) -> Map<Seq<char>, V> {
        as_map(self.entries@)
    }
}

impl<V> Assoc<V> {
    /// No key is held twice.
    #[verifier::type_invariant]
    pub closed spec fn wf(self) -> bool {
        distinct_keys(self.entries@)
    }

    /// The entries, in the order in which their keys first came.
    pub closed spec fn spec_entries(self) -> Seq<Entry<V>> {
        self.entries@
    }

    /// The map without any key.
    pub fn new() -> (map: Assoc<V>)
        ensures
            map@ == Map::<Seq<char>, V>::empty(),
            map.spec_entries().len() == 0,
    {
        let map = Assoc { entries: Vec::new() };
        assert(map@ =~= Map::<Seq<char>, V>::empty());
        map
    }

    /// The place of the key among the entries.
    fn position(&self, key: &String) -> (found: Option<usize>)
        ensures
            found matches Some(i) ==> i < self.entries@.len() && self.entries@[i as int].key@
                == key@,
            found is None ==> !has_key(self.entries@, key@),
    {
        let n = self.entries.len();
        let mut i: usize = 0;
        while i < n
            invariant
                i <= n,
                n == self.entries@.len(),
                forall|j: int| 0 <= j < i ==> (#[trigger] self.entries@[j]).key@ != key@,
            decreases n - i,
        {
            if self.entries[i].key == *key {
                return Some(i);
            }
            i += 1;
        }
        None
    }

    /// Whether the key is in the map.
    pub fn contains_key(&self, key: &String) -> (found: bool)
        ensures
            found == self@.contains_key(key@),
    {
        self.position(key).is_some()
    }

    /// The value of the key.
    pub fn get(&self, key: &String) -> (value: Option<&V>)
        ensures
            self@.contains_key(key@) ==> value == Some(&self@[key@]),
            !self@.contains_key(key@) ==> value is None,
    {
        proof {
            use_type_invariant(self);
        }
        match self.position(key) {
            Some(i) => {
                proof {
                    lemma_entry_found(self.entries@, i as int);
                }
                Some(&self.entries[i].value)
            },
            None => None,
        }
    }

    /// Gives the key this value, whether it had one or not.
    pub fn insert(&mut self, key: String, value: V)
        ensures
            final(self)@ == old(self)@.insert(key@, value),
    {
        proof {
            use_type_invariant(&*self);
        }
        let entry = Entry { key, value };
        match self.position(&entry.key) {
            Some(i) => {
                proof {
                    lemma_update(self.entries@, i as int, entry);
                }
                // The entries are taken out while they change, so that the
                // invariant holds of `self` at every step.
                let mut entries: Vec<Entry<V>> = Vec::new();
                core::mem::swap(&mut self.entries, &mut entries);
                entries[i] = entry;
                self.entries = entries;
            },
            None => {
                proof {
                    lemma_push(self.entries@, entry);
                }
                let mut entries: Vec<Entry<V>> = Vec::new();
                core::mem::swap(&mut self.entries, &mut entries);
                entries.push(entry);
                self.entries = entries;
            },
        }
    }

    /// Takes the key out of the map and hands back the value that it had.
    pub fn remove(&mut self, key: &String) -> (value: Option<V>)
        ensures
            value == old(self)@.get(key@),
            final(self)@ == old(self)@.remove(key@),
    {
        proof {
            use_type_invariant(&*self);
        }
        match self.position(key) {
            Some(i) => {
                proof {
                    lemma_entry_found(self.entries@, i as int);
                    lemma_remove(self.entries@, i as int);
                }
                let mut entries: Vec<Entry<V>> = Vec::new();
                core::mem::swap(&mut self.entries, &mut entries);
                let entry = entries.remove(i);
                self.entries = entries;
                Some(entry.value)
            },
            None => {
                assert(old(self)@.remove(key@) =~= old(self)@);
                None
            },
        }
    }

    /// The number of keys.
    pub fn len(&self) -> (n: usize)
        ensures
            n == self.spec_entries().len(),
            n == self@.len(),
            self@.dom().finite(),
    {
        proof {
            use_type_invariant(self);
            lemma_len(self.entries@);
        }
        self.entries.len()
    }

    /// The entry at a place, if the place is below the number of keys. Every
    /// entry is in the map, and the map holds nothing else.
    pub fn entry(&self, i: usize) -> (entry: Option<&Entry<V>>)
        ensures
            i < self.spec_entries().len() ==> (entry matches Some(e) && *e
                == self.spec_entries()[i as int] && self@.contains_key(e.key@) && self@[e.key@]
                == e.value),
            i >= self.spec_entries().len() ==> entry is None,
    {
        if i < self.entries.len() {
            proof {
                use_type_invariant(self);
                lemma_entry_found(self.entries@, i as int);
            }
            Some(&self.entries[i])
        } else {
            None
        }
    }

    /// The entries are the map: each key of the map is the key of exactly one
    /// entry.
    pub proof fn lemma_entries(self)
        requires
            self.wf(),
        ensures
            distinct_keys(self.spec_entries()),
            self@ == as_map(self.spec_entries()),
    {
    }
}

} // verus!
