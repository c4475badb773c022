//! The ledger's account store: values filed under their address.

use crate::address::Address;
use vstd::prelude::*;

verus! {

/// One account: its address and what is stored there.
pub struct Entry<V> {
    pub key: Address,
    pub value: V,
}

/// A finite map from addresses to values. No address is filed twice.
pub struct Table<V> {
    entries: Vec<Entry<V>>,
}

pub open spec fn files<V>(entries: Seq<Entry<V>>, key: Address, i: int) -> bool {
    0 <= i < entries.len() && entries[i].key == key
}

pub open spec fn distinct_keys<V>(entries: Seq<Entry<V>>) -> bool {
    forall|i: int, j: int|
        0 <= i < j < entries.len() ==> (#[trigger] entries[i]).key != (#[trigger] entries[j]).key
}

/// The map that a list of entries with distinct keys stands for.
pub open spec fn as_map<V>(entries: Seq<Entry<V>>) -> Map<Address, V> {
    Map::new(
        |k: Address| exists|i: int| files(entries, k, i),
        |k: Address| entries[choose|i: int| files(entries, k, i)].value,
    )
}

proof fn lemma_as_map_at<V>(entries: Seq<Entry<V>>, i: int)
    requires
        distinct_keys(entries),
        0 <= i < entries.len(),
    ensures
        as_map(entries).contains_key(entries[i].key),
        as_map(entries)[entries[i].key] == entries[i].value,
{
    let k = entries[i].key;
    assert(files(entries, k, i));
    let c = choose|c: int| files(entries, k, c);
    assert(files(entries, k, c));
    if c < i {
        assert(entries[c].key != entries[i].key);
    } else if i < c {
        assert(entries[i].key != entries[c].key);
    }
}

proof fn lemma_as_map_push<V>(entries: Seq<Entry<V>>, e: Entry<V>)
    requires
        distinct_keys(entries),
        !as_map(entries).contains_key(e.key),
    ensures
        distinct_keys(entries.push(e)),
        as_map(entries.push(e)) == as_map(entries).insert(e.key, e.value),
{
    let after = entries.push(e);
    assert forall|i: int, j: int| 0 <= i < j < after.len() implies (#[trigger] after[i]).key != (
    #[trigger] after[j]).key by {
        if j == entries.len() {
            assert(files(entries, after[i].key, i));
        } else {
            assert(entries[i].key != entries[j].key);
        }
    }
    assert forall|k: Address| as_map(after).contains_key(k) <==> as_map(entries).insert(
        e.key,
        e.value,
    ).contains_key(k) by {
        if as_map(after).contains_key(k) {
            let i = choose|i: int| files(after, k, i);
            if i < entries.len() {
                assert(files(entries, k, i));
            }
        }
        if k == e.key {
            assert(files(after, k, entries.len() as int));
        } else if as_map(entries).contains_key(k) {
            let i = choose|i: int| files(entries, k, i);
            assert(files(after, k, i));
        }
    }
    assert forall|k: Address| as_map(after).contains_key(k) implies as_map(after)[k] == as_map(
        entries,
    ).insert(e.key, e.value)[k] by {
        let i = choose|i: int| files(after, k, i);
        lemma_as_map_at(after, i);
        if i < entries.len() {
            lemma_as_map_at(entries, i);
            assert(files(entries, k, i));
        }
    }
    assert(as_map(after) =~= as_map(entries).insert(e.key, e.value));
}

proof fn lemma_as_map_update<V>(entries: Seq<Entry<V>>, i: int, e: Entry<V>)
    requires
        distinct_keys(entries),
        0 <= i < entries.len(),
        entries[i].key == e.key,
    ensures
        distinct_keys(entries.update(i, e)),
        as_map(entries.update(i, e)) == as_map(entries).insert(e.key, e.value),
{
    let after = entries.update(i, e);
    assert forall|a: int, b: int| 0 <= a < b < after.len() implies (#[trigger] after[a]).key != (
    #[trigger] after[b]).key by {
        assert(entries[a].key != entries[b].key);
    }
    assert forall|k: Address| as_map(after).contains_key(k) <==> as_map(entries).insert(
        e.key,
        e.value,
    ).contains_key(k) by {
        if as_map(after).contains_key(k) {
            let c = choose|c: int| files(after, k, c);
            assert(files(entries, k, c));
        }
        if k == e.key {
            assert(files(after, k, i));
        } else if as_map(entries).contains_key(k) {
            let c = choose|c: int| files(entries, k, c);
            assert(files(after, k, c));
        }
    }
    assert forall|k: Address| as_map(after).contains_key(k) implies as_map(after)[k] == as_map(
        entries,
    ).insert(e.key, e.value)[k] by {
        let c = choose|c: int| files(after, k, c);
        lemma_as_map_at(after, c);
        lemma_as_map_at(entries, c);
    }
    assert(as_map(after) =~= as_map(entries).insert(e.key, e.value));
}

proof fn lemma_as_map_remove<V>(entries: Seq<Entry<V>>, i: int)
    requires
        distinct_keys(entries),
        0 <= i < entries.len(),
    ensures
        distinct_keys(entries.remove(i)),
        as_map(entries.remove(i)) == as_map(entries).remove(entries[i].key),
{
    let after = entries.remove(i);
    let gone = entries[i].key;
    assert forall|a: int, b: int| 0 <= a < b < after.len() implies (#[trigger] after[a]).key != (
    #[trigger] after[b]).key by {
        let a0 = if a < i { a } else { a + 1 };
        let b0 = if b < i { b } else { b + 1 };
        assert(entries[a0].key != entries[b0].key);
    }
    assert forall|k: Address| as_map(after).contains_key(k) <==> as_map(entries).remove(
        gone,
    ).contains_key(k) by {
        if as_map(after).contains_key(k) {
            let c = choose|c: int| files(after, k, c);
            let c0 = if c < i { c } else { c + 1 };
            assert(files(entries, k, c0));
            if c0 < i {
                assert(entries[c0].key != entries[i].key);
            } else {
                assert(entries[i].key != entries[c0].key);
            }
        }
        if k != gone && as_map(entries).contains_key(k) {
            let c = choose|c: int| files(entries, k, c);
            let c1 = if c < i { c } else { c - 1 };
            assert(files(after, k, c1));
        }
    }
    assert forall|k: Address| as_map(after).contains_key(k) implies as_map(after)[k] == as_map(
        entries,
    ).remove(gone)[k] by {
        let c = choose|c: int| files(after, k, c);
        let c0 = if c < i { c } else { c + 1 };
        lemma_as_map_at(after, c);
        lemma_as_map_at(entries, c0);
    }
    assert(as_map(after) =~= as_map(entries).remove(gone));
}

impl<V> Table<V> {
    #[verifier::type_invariant]
    spec fn well_formed(self) -> bool {
        distinct_keys(self.entries@)
    }

    /// The table as a map from address to value.
    pub closed spec fn view(&self) -> Map<Address, V> {
        as_map(self.entries@)
    }
}

impl<V: Copy> Table<V> {
    pub fn new() -> (t: Table<V>)
        ensures
            t@ == Map::<Address, V>::empty(),
    {
        let t = Table { entries: Vec::new() };
        assert(t@ =~= Map::<Address, V>::empty());
        t
    }

    fn position(&self, key: &Address) -> (r: Option<usize>)
        ensures
            r is Some <==> self@.contains_key(*key),
            r matches Some(i) ==> files(self.entries@, *key, i as int),
    {
        let mut i: usize = 0;
        while i < self.entries.len()
            invariant
                i <= self.entries.len(),
                forall|j: int| 0 <= j < i ==> self.entries[j].key != *key,
            decreases self.entries.len() - i,
        {
            if self.entries[i].key.same(key) {
                assert(files(self.entries@, *key, i as int));
                return Some(i);
            }
            i += 1;
        }
        None
    }

    /// Moves the entries out and leaves the table empty.
    fn take_entries(&mut self) -> (entries: Vec<Entry<V>>)
        ensures
            entries@ == old(self).entries@,
            distinct_keys(entries@),
    {
        proof {
            use_type_invariant(&*self);
        }
        let mut taken: Table<V> = Table { entries: Vec::new() };
        core::mem::swap(self, &mut taken);
        taken.entries
    }

    /// Whether something is filed at `key`.
    pub fn contains(&self, key: &Address) -> (r: bool)
        ensures
            r == self@.contains_key(*key),
    {
        self.position(key).is_some()
    }

    /// What is filed at `key`, if anything.
    pub fn get(&self, key: &Address) -> (r: Option<V>)
        ensures
            r is Some <==> self@.contains_key(*key),
            r matches Some(v) ==> v == self@[*key],
    {
        match self.position(key) {
            Some(i) => {
                proof {
                    use_type_invariant(self);
                    lemma_as_map_at(self.entries@, i as int);
                }
                Some(self.entries[i].value)
            },
            None => None,
        }
    }

    /// Files `value` at `key`, in place of what was there.
    pub fn put(&mut self, key: Address, value: V)
        ensures
            final(self)@ == old(self)@.insert(key, value),
    {
        proof {
            use_type_invariant(&*self);
        }
        let found = self.position(&key);
        let mut entries = self.take_entries();
        match found {
            Some(i) => {
                proof {
                    lemma_as_map_update(entries@, i as int, Entry { key, value });
                }
                entries[i] = Entry { key, value };
            },
            None => {
                proof {
                    lemma_as_map_push(entries@, Entry { key, value });
                }
                entries.push(Entry { key, value });
            },
        }
        *self = Table { entries };
    }

    /// Takes away what is filed at `key`, if anything.
    pub fn remove(&mut self, key: &Address)
        ensures
            final(self)@ == old(self)@.remove(*key),
    {
        proof {
            use_type_invariant(&*self);
        }
        match self.position(key) {
            Some(i) => {
                let mut entries = self.take_entries();
                proof {
                    lemma_as_map_remove(entries@, i as int);
                }
                entries.remove(i);
                *self = Table { entries };
            },
            None => {
                assert(self@ =~= self@.remove(*key));
            },
        }
    }

    /// A copy that holds the same entries.
    pub fn duplicate(&self) -> (t: Table<V>)
        ensures
            t@ == self@,
    {
        proof {
            use_type_invariant(self);
        }
        let mut entries: Vec<Entry<V>> = Vec::new();
        let mut i: usize = 0;
        while i < self.entries.len()
            invariant
                i <= self.entries.len(),
                entries@ == self.entries@.subrange(0, i as int),
            decreases self.entries.len() - i,
        {
            entries.push(Entry { key: self.entries[i].key, value: self.entries[i].value });
            assert(entries@ =~= self.entries@.subrange(0, i + 1));
            i += 1;
        }
        assert(entries@ =~= self.entries@);
        Table { entries }
    }
}

} // verus!
