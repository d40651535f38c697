//! The store behind the registry: a map from fingerprints to claim records,
//! with the fingerprints compared byte for byte.

use vstd::prelude::*;
use crate::types::ClaimRecord;

verus! {

/// One entry of the store: a fingerprint and the record under it.
struct Entry {
    key: Vec<u8>,
    record: ClaimRecord,
}

/// A map from fingerprints to claim records.
///
/// The entries lie in a vector in no particular order, and no fingerprint
/// occurs twice among their keys.
pub struct Proofs {
    entries: Vec<Entry>,
}

/// Whether the entry at index `i` lies under the fingerprint `k`.
spec fn key_at(entries: Seq<Entry>, i: int, k: Seq<u8>) -> bool {
    0 <= i < entries.len() && entries[i].key@ == k
}

/// No two entries lie under the same fingerprint.
spec fn distinct(entries: Seq<Entry>) -> bool {
    forall|i: int, j: int|
        0 <= i < j < entries.len() ==> entries[i].key@ != entries[j].key@
}

/// The map that the entries stand for.
spec fn as_map(entries: Seq<Entry>) -> Map<Seq<u8>, ClaimRecord> {
    Map::new(
        |k: Seq<u8>| exists|i: int| key_at(entries, i, k),
        |k: Seq<u8>| entries[choose|i: int| key_at(entries, i, k)].record,
    )
}

/// Among distinct entries, the map holds under the key of each entry the
/// record of that entry.
proof fn lemma_entry(entries: Seq<Entry>, i: int)
    requires
        distinct(entries),
        0 <= i < entries.len(),
    ensures
        as_map(entries).contains_key(entries[i].key@),
        as_map(entries)[entries[i].key@] == entries[i].record,
{
    assert(key_at(entries, i, entries[i].key@));
}

/// Appending an entry under a fingerprint that the map lacks inserts it.
proof fn lemma_push(entries: Seq<Entry>, entry: Entry)
    requires
        distinct(entries),
        !as_map(entries).contains_key(entry.key@),
    ensures
        distinct(entries.push(entry)),
        as_map(entries.push(entry)) == as_map(entries).insert(entry.key@, entry.record),
{
    let grown = entries.push(entry);
    let n = entries.len() as int;
    let expected = as_map(entries).insert(entry.key@, entry.record);
    assert forall|i: int, j: int| 0 <= i < j < grown.len() implies grown[i].key@
        != grown[j].key@ by {
        if j == n {
            assert(!key_at(entries, i, entry.key@));
        }
    }
    assert forall|k: Seq<u8>| #[trigger]
        as_map(grown).contains_key(k) == expected.contains_key(k) by {
        if as_map(grown).contains_key(k) {
            let i = choose|i: int| key_at(grown, i, k);
            if i < n {
                assert(key_at(entries, i, k));
            }
        } else if k == entry.key@ {
            assert(key_at(grown, n, k));
        } else if as_map(entries).contains_key(k) {
            let i = choose|i: int| key_at(entries, i, k);
            assert(key_at(grown, i, k));
        }
    }
    assert forall|k: Seq<u8>| #[trigger] as_map(grown).contains_key(k) implies as_map(grown)[k]
        == expected[k] by {
        if k == entry.key@ {
            lemma_entry(grown, n);
        } else {
            let i = choose|i: int| key_at(entries, i, k);
            lemma_entry(entries, i);
            lemma_entry(grown, i);
        }
    }
}

/// Replacing an entry, in its place, by one under the same key replaces what
/// the map holds under that key.
proof fn lemma_update(entries: Seq<Entry>, i: int, entry: Entry)
    requires
        distinct(entries),
        0 <= i < entries.len(),
        entry.key@ == entries[i].key@,
    ensures
        distinct(entries.update(i, entry)),
        as_map(entries.update(i, entry)) == as_map(entries).insert(entry.key@, entry.record),
{
    let changed = entries.update(i, entry);
    let expected = as_map(entries).insert(entry.key@, entry.record);
    assert forall|k: Seq<u8>| #[trigger]
        as_map(changed).contains_key(k) == expected.contains_key(k) by {
        if as_map(changed).contains_key(k) {
            let j = choose|j: int| key_at(changed, j, k);
            assert(key_at(entries, j, k));
        } else if k == entry.key@ {
            assert(key_at(changed, i, k));
        } else if as_map(entries).contains_key(k) {
            let j = choose|j: int| key_at(entries, j, k);
            assert(key_at(changed, j, k));
        }
    }
    assert forall|k: Seq<u8>| #[trigger] as_map(changed).contains_key(k) implies as_map(changed)[k]
        == expected[k] by {
        if k == entry.key@ {
            lemma_entry(changed, i);
        } else {
            let j = choose|j: int| key_at(entries, j, k);
            lemma_entry(entries, j);
            lemma_entry(changed, j);
        }
    }
}

/// Moving the last entry into the place of the entry at `i` removes from the
/// map the key of the entry that lay at `i`.
proof fn lemma_swap_remove(entries: Seq<Entry>, i: int)
    requires
        distinct(entries),
        0 <= i < entries.len(),
    ensures
        distinct(entries.update(i, entries.last()).drop_last()),
        as_map(entries.update(i, entries.last()).drop_last()) == as_map(entries).remove(
            entries[i].key@,
        ),
{
    let rest = entries.update(i, entries.last()).drop_last();
    let last = entries.len() - 1;
    let expected = as_map(entries).remove(entries[i].key@);
    // Where the entry at an index of `rest` lay among `entries`.
    let origin = |j: int| if j == i { last } else { j };
    assert forall|k: Seq<u8>| #[trigger]
        as_map(rest).contains_key(k) == expected.contains_key(k) by {
        if as_map(rest).contains_key(k) {
            let j = choose|j: int| key_at(rest, j, k);
            assert(key_at(entries, origin(j), k));
        } else if k != entries[i].key@ && as_map(entries).contains_key(k) {
            let j = choose|j: int| key_at(entries, j, k);
            assert(key_at(rest, if j == last { i } else { j }, k));
        }
    }
    assert forall|k: Seq<u8>| #[trigger] as_map(rest).contains_key(k) implies as_map(rest)[k]
        == expected[k] by {
        let j = choose|j: int| key_at(rest, j, k);
        lemma_entry(rest, j);
        lemma_entry(entries, origin(j));
    }
}

/// The index at which an entry lies under `key`, if one does.
fn find(entries: &Vec<Entry>, key: &Vec<u8>) -> (found: Option<usize>)
    ensures
        match found {
            Some(i) => key_at(entries@, i as int, key@),
            None => !as_map(entries@).contains_key(key@),
        },
{
    let mut i: usize = 0;
    while i < entries.len()
        invariant
            i <= entries.len(),
            forall|j: int| 0 <= j < i ==> !key_at(entries@, j, key@),
        decreases entries.len() - i,
    {
        if entries[i].key == *key {
            assert(entries[i as int].key@ =~= key@);
            return Some(i);
        }
        i += 1;
    }
    None
}

impl View for Proofs {
    type V = Map<Seq<u8>, ClaimRecord>;

    closed spec fn view(&self) -> Map<Seq<u8>, ClaimRecord> {
        as_map(self.entries@)
    }
}

impl Proofs {
    #[verifier::type_invariant]
    spec fn well_formed(self) -> bool {
        distinct(self.entries@)
    }

    /// An empty store.
    pub fn new() -> (proofs: Proofs)
        ensures
            proofs@ == Map::<Seq<u8>, ClaimRecord>::empty(),
    {
        let proofs = Proofs { entries: Vec::new() };
        proofs
    }

    /// Whether a record lies under `key`.
    pub fn contains_key(&self, key: &Vec<u8>) -> (present: bool)
        ensures
            present == self@.contains_key(key@),
    {
        find(&self.entries, key).is_some()
    }

    /// The record under `key`.
    pub fn get(&self, key: &Vec<u8>) -> (record: Option<ClaimRecord>)
        ensures
            record == (if self@.contains_key(key@) {
                Some(self@[key@])
            } else {
                None
            }),
    {
        proof {
            use_type_invariant(self);
        }
        match find(&self.entries, key) {
            Some(i) => {
                proof {
                    lemma_entry(self.entries@, i as int);
                }
                Some(self.entries[i].record)
            },
            None => None,
        }
    }

    /// Puts `record` under `key`: in the place of the record that lay there, or
    /// as a new entry where none did.
    pub fn insert(&mut self, key: &Vec<u8>, record: ClaimRecord)
        ensures
            final(self)@ == old(self)@.insert(key@, record),
    {
        proof {
            use_type_invariant(&*self);
        }
        // The entries are taken out while they change and put back at the end.
        let mut entries: Vec<Entry> = Vec::new();
        std::mem::swap(&mut entries, &mut self.entries);
        match find(&entries, key) {
            Some(i) => {
                proof {
                    lemma_update(entries@, i as int, Entry { key: entries[i as int].key, record });
                }
                entries[i].record = record;
            },
            None => {
                let entry = Entry { key: key.clone(), record };
                proof {
                    lemma_push(entries@, entry);
                }
                entries.push(entry);
            },
        }
        self.entries = entries;
    }

    /// Takes the entry under `key` away and returns the record that lay there.
    pub fn remove(&mut self, key: &Vec<u8>) -> (removed: Option<ClaimRecord>)
        ensures
            final(self)@ == old(self)@.remove(key@),
            removed == (if old(self)@.contains_key(key@) {
                Some(old(self)@[key@])
            } else {
                None
            }),
    {
        proof {
            use_type_invariant(&*self);
        }
        // The entries are taken out while they change and put back at the end.
        let mut entries: Vec<Entry> = Vec::new();
        std::mem::swap(&mut entries, &mut self.entries);
        let removed = match find(&entries, key) {
            Some(i) => {
                proof {
                    lemma_entry(entries@, i as int);
                    lemma_swap_remove(entries@, i as int);
                }
                let entry = entries.swap_remove(i);
                Some(entry.record)
            },
            None => None,
        };
        self.entries = entries;
        removed
    }
}

impl Default for Proofs {
    fn default() -> (proofs: Proofs)
        ensures
            proofs@ == Map::<Seq<u8>, ClaimRecord>::empty(),
    {
        Proofs::new()
    }
}

} // verus!
