//! Free-form data attached to a notification: JSON values under text keys.
//!
//! The values are those of the `serde_json` crate and are carried as they
//! are; the table that holds them is this library's own, so that what an
//! insertion does to it is proved.

use vstd::prelude::*;

verus! {

#[verifier::external_type_specification]
#[verifier::external_body]
pub struct ExValue(serde_json::Value);

/// Copies a JSON value with `serde_json::Value::clone`, which yields a value
/// equal to the one it was given.
#[verifier::external_body]
pub(crate) fn clone_value(value: &serde_json::Value) -> (r: serde_json::Value)
    ensures
        r == *value,
{
    value.clone()
}

/// One key of the table with the value stored under it.
#[derive(Debug)]
struct MetadataEntry {
    key: String,
    value: serde_json::Value,
}

/// A table from text keys to JSON values. Each key occurs at most once.
#[derive(Debug)]
pub struct Metadata {
    entries: Vec<MetadataEntry>,
}

/// Whether `key` is the key of one of `entries`.
spec fn has_key(entries: Seq<MetadataEntry>, key: Seq<char>) -> bool {
    exists|i: int| 0 <= i < entries.len() && #[trigger] entries[i].key@ == key
}

/// The position of an entry of `entries` whose key is `key`.
spec fn position_of(entries: Seq<MetadataEntry>, key: Seq<char>) -> int {
    choose|i: int| 0 <= i < entries.len() && #[trigger] entries[i].key@ == key
}

/// Whether no two of `entries` share a key.
spec fn distinct_keys(entries: Seq<MetadataEntry>) -> bool {
    forall|i: int, j: int|
        0 <= i < j < entries.len() ==> #[trigger] entries[i].key@ != #[trigger] entries[j].key@
}

/// The table that `entries` spell out.
spec fn table_of(entries: Seq<MetadataEntry>) -> Map<Seq<char>, serde_json::Value> {
    Map::new(
        |key: Seq<char>| has_key(entries, key),
        |key: Seq<char>| entries[position_of(entries, key)].value,
    )
}

/// In a list without repeated keys, each entry is the one found under its key.
proof fn lemma_entry_found(entries: Seq<MetadataEntry>, i: int)
    requires
        distinct_keys(entries),
        0 <= i < entries.len(),
    ensures
        has_key(entries, entries[i].key@),
        position_of(entries, entries[i].key@) == i,
        table_of(entries)[entries[i].key@] == entries[i].value,
{
    let key = entries[i].key@;
    assert(entries[i].key@ == key);
    let found = position_of(entries, key);
    assert(0 <= found < entries.len() && entries[found].key@ == key);
    if found < i {
        assert(entries[found].key@ != entries[i].key@);
    } else if i < found {
        assert(entries[i].key@ != entries[found].key@);
    }
}

impl View for Metadata {
    type V = Map<Seq<char>, serde_json::Value>;

    closed spec fn view(&self) -> Map<Seq<char>, serde_json::Value> {
        table_of(self.entries@)
    }
}

impl DeepView for Metadata {
    type V = Map<Seq<char>, serde_json::Value>;

    open spec fn deep_view(&self) -> Map<Seq<char>, serde_json::Value> {
        self@
    }
}

impl Metadata {
    #[verifier::type_invariant]
    spec fn well_formed(&self) -> bool {
        distinct_keys(self.entries@)
    }

    /// A table with no entry.
    pub fn new() -> (r: Metadata)
        ensures
            r@ == Map::<Seq<char>, serde_json::Value>::empty(),
    {
        let r = Metadata { entries: Vec::new() };
        assert(r@ =~= Map::<Seq<char>, serde_json::Value>::empty());
        r
    }

    /// Whether the table has no entry.
    pub fn is_empty(&self) -> (r: bool)
        ensures
            r == (self@ == Map::<Seq<char>, serde_json::Value>::empty()),
    {
        let r = self.entries.len() == 0;
        proof {
            if r {
                assert(self@ =~= Map::<Seq<char>, serde_json::Value>::empty());
            } else {
                assert(self.entries@[0].key@ == self.entries@[0].key@);
                assert(self@.contains_key(self.entries@[0].key@));
            }
        }
        r
    }

    /// Where `key` stands among the entries, if it does.
    fn find(&self, key: &String) -> (r: Option<usize>)
        ensures
            r matches Some(i) ==> i < self.entries@.len() && self.entries@[i as int].key@ == key@,
            r is None ==> !has_key(self.entries@, key@),
    {
        let mut i: usize = 0;
        while i < self.entries.len()
            invariant
                i <= self.entries@.len(),
                forall|j: int| 0 <= j < i ==> self.entries@[j].key@ != key@,
            decreases self.entries@.len() - i,
        {
            if self.entries[i].key == *key {
                return Some(i);
            }
            i += 1;
        }
        None
    }

    /// Whether a value is stored under `key`.
    pub fn contains_key(&self, key: &str) -> (r: bool)
        ensures
            r == self@.contains_key(key@),
    {
        self.find(&key.to_owned()).is_some()
    }

    /// The value stored under `key`, if there is one.
    pub fn get(&self, key: &str) -> (r: Option<&serde_json::Value>)
        ensures
            r is Some == self@.contains_key(key@),
            r matches Some(value) ==> *value == self@[key@],
    {
        match self.find(&key.to_owned()) {
            Some(i) => {
                proof {
                    use_type_invariant(self);
                    lemma_entry_found(self.entries@, i as int);
                }
                Some(&self.entries[i].value)
            },
            None => None,
        }
    }

    /// Stores `value` under `key`, in place of what was stored there before.
    pub fn insert(&mut self, key: String, value: serde_json::Value)
        ensures
            final(self)@ == old(self)@.insert(key@, value),
    {
        proof {
            use_type_invariant(&*self);
        }
        let ghost before = self.entries@;
        let found = self.find(&key);
        let mut taken = Metadata::new();
        core::mem::swap(self, &mut taken);
        let mut entries = taken.entries;
        match found {
            Some(i) => {
                entries.set(i, MetadataEntry { key, value });
                proof {
                    let after = entries@;
                    assert(distinct_keys(after));
                    assert forall|k: Seq<char>| has_key(before, k) == has_key(after, k) by {
                        if has_key(before, k) {
                            let p = position_of(before, k);
                            assert(after[p].key@ == k);
                        }
                        if has_key(after, k) {
                            let p = position_of(after, k);
                            assert(before[p].key@ == k);
                        }
                    }
                    assert forall|k: Seq<char>| has_key(after, k) implies table_of(after)[k]
                        == table_of(before).insert(key@, value)[k] by {
                        let p = position_of(after, k);
                        lemma_entry_found(after, p);
                        lemma_entry_found(before, p);
                        lemma_entry_found(after, i as int);
                    }
                    assert(table_of(after) =~= table_of(before).insert(key@, value));
                }
            },
            None => {
                entries.push(MetadataEntry { key, value });
                proof {
                    let after = entries@;
                    let last = before.len() as int;
                    assert(forall|j: int| 0 <= j < last ==> after[j] == before[j]);
                    assert(distinct_keys(after)) by {
                        assert forall|a: int, b: int| 0 <= a < b < after.len() implies after[a].key@
                            != after[b].key@ by {
                            if b == last {
                                assert(before[a].key@ == after[a].key@);
                            }
                        }
                    }
                    assert forall|k: Seq<char>| has_key(after, k) == (has_key(before, k) || k
                        == key@) by {
                        if has_key(before, k) {
                            let p = position_of(before, k);
                            assert(after[p].key@ == k);
                        }
                        if k == key@ {
                            assert(after[last].key@ == k);
                        }
                        if has_key(after, k) {
                            let p = position_of(after, k);
                            if p < last {
                                assert(before[p].key@ == k);
                            }
                        }
                    }
                    assert forall|k: Seq<char>| has_key(after, k) implies table_of(after)[k]
                        == table_of(before).insert(key@, value)[k] by {
                        let p = position_of(after, k);
                        lemma_entry_found(after, p);
                        if p < last {
                            assert(before[p].key@ == k);
                            lemma_entry_found(before, p);
                        }
                    }
                    assert(table_of(after) =~= table_of(before).insert(key@, value));
                }
            },
        }
        *self = Metadata { entries };
    }

    /// The keys of the table, each once.
    pub fn keys(&self) -> (r: Vec<String>)
        ensures
            forall|i: int| 0 <= i < r@.len() ==> self@.contains_key(#[trigger] r@[i]@),
            forall|key: Seq<char>|
                self@.contains_key(key) ==> exists|i: int| 0 <= i < r@.len() && #[trigger] r@[i]@ == key,
            forall|i: int, j: int| 0 <= i < j < r@.len() ==> #[trigger] r@[i]@ != #[trigger] r@[j]@,
    {
        proof {
            use_type_invariant(self);
        }
        let mut keys: Vec<String> = Vec::new();
        let mut i: usize = 0;
        while i < self.entries.len()
            invariant
                i <= self.entries@.len(),
                keys@.len() == i,
                forall|j: int| 0 <= j < i ==> #[trigger] keys@[j]@ == self.entries@[j].key@,
            decreases self.entries@.len() - i,
        {
            keys.push(self.entries[i].key.clone());
            i += 1;
        }
        proof {
            assert forall|key: Seq<char>| self@.contains_key(key) implies exists|i: int|
                0 <= i < keys@.len() && #[trigger] keys@[i]@ == key by {
                let p = position_of(self.entries@, key);
                assert(keys@[p]@ == key);
            }
            assert forall|i: int, j: int| 0 <= i < j < keys@.len() implies keys@[i]@ != keys@[j]@ by {
                assert(self.entries@[i].key@ != self.entries@[j].key@);
            }
        }
        keys
    }
}

impl Clone for Metadata {
    fn clone(&self) -> (r: Metadata)
        ensures
            r@ == self@,
    {
        proof {
            use_type_invariant(self);
        }
        let mut entries: Vec<MetadataEntry> = Vec::new();
        let mut i: usize = 0;
        while i < self.entries.len()
            invariant
                i <= self.entries@.len(),
                entries@.len() == i,
                forall|j: int|
                    0 <= j < i ==> (#[trigger] entries@[j]).key@ == self.entries@[j].key@
                        && entries@[j].value == self.entries@[j].value,
            decreases self.entries@.len() - i,
        {
            let entry = &self.entries[i];
            entries.push(MetadataEntry { key: entry.key.clone(), value: clone_value(&entry.value) });
            i += 1;
        }
        proof {
            let mine = self.entries@;
            let copy = entries@;
            assert(distinct_keys(copy)) by {
                assert forall|a: int, b: int| 0 <= a < b < copy.len() implies copy[a].key@
                    != copy[b].key@ by {
                    assert(mine[a].key@ != mine[b].key@);
                }
            }
            assert forall|k: Seq<char>| has_key(mine, k) == has_key(copy, k) by {
                if has_key(mine, k) {
                    let p = position_of(mine, k);
                    assert(copy[p].key@ == k);
                }
                if has_key(copy, k) {
                    let p = position_of(copy, k);
                    assert(mine[p].key@ == k);
                }
            }
            assert forall|k: Seq<char>| has_key(copy, k) implies table_of(copy)[k] == table_of(
                mine,
            )[k] by {
                let p = position_of(copy, k);
                lemma_entry_found(copy, p);
                lemma_entry_found(mine, p);
            }
            assert(table_of(copy) =~= table_of(mine));
        }
        Metadata { entries }
    }
}

} // verus!
