use vstd::prelude::*;

use crate::errors::StoreError;
use crate::key::Pubkey;
use crate::record::{CrateRecord, CrateRecordView};

verus! {

/// A replacement for one of the two lists of links of a stored record.
#[derive(Debug)]
pub enum LinkUpdate {
    /// The new value of `parent_crates`.
    Parents(Vec<Pubkey>),
    /// The new value of `child_crates`.
    Children(Vec<Pubkey>),
}

impl LinkUpdate {
    /// The record `record` with the list that `self` names replaced.
    pub open spec fn apply(self, record: CrateRecordView) -> CrateRecordView {
        match self {
            LinkUpdate::Parents(keys) => CrateRecordView { parent_crates: keys@, ..record },
            LinkUpdate::Children(keys) => CrateRecordView { child_crates: keys@, ..record },
        }
    }
}

struct Entry {
    key: Pubkey,
    record: CrateRecord,
}

/// The records of a ledger, each under the key it was created with.
pub struct RecordStore {
    entries: Vec<Entry>,
}

impl View for RecordStore {
    type V = Map<Pubkey, CrateRecordView>;

    closed spec fn view(&self) -> Map<Pubkey, CrateRecordView> {
        Map::new(|key: Pubkey| self.holds(key), |key: Pubkey| self.entries@[self.slot(key)].record@)
    }
}

impl RecordStore {
    #[verifier::type_invariant]
    spec fn keys_distinct(self) -> bool {
        forall|i: int, j: int|
            0 <= i < j < self.entries@.len() ==> self.entries@[i].key != self.entries@[j].key
    }

    spec fn holds(self, key: Pubkey) -> bool {
        exists|i: int| 0 <= i < self.entries@.len() && #[trigger] self.entries@[i].key == key
    }

    spec fn slot(self, key: Pubkey) -> int {
        choose|i: int| 0 <= i < self.entries@.len() && #[trigger] self.entries@[i].key == key
    }

    /// A store that holds no record.
    pub fn new() -> (store: RecordStore)
        ensures
            store@ == Map::<Pubkey, CrateRecordView>::empty(),
    {
        let store = RecordStore { entries: Vec::new() };
        assert(store@ =~= Map::<Pubkey, CrateRecordView>::empty());
        store
    }

    fn find(&self, key: &Pubkey) -> (found: Option<usize>)
        ensures
            match found {
                Some(i) => i < self.entries@.len() && self.entries@[i as int].key == *key
                    && self.slot(*key) == i && self.holds(*key),
                None => !self.holds(*key),
            },
    {
        proof {
            use_type_invariant(self);
        }
        let mut i: usize = 0;
        while i < self.entries.len()
            invariant
                i <= self.entries@.len(),
                forall|j: int| 0 <= j < i ==> self.entries@[j].key != *key,
                self.keys_distinct(),
            decreases self.entries@.len() - i,
        {
            if self.entries[i].key == *key {
                proof {
                    let j = self.slot(*key);
                    assert(self.entries@[i as int].key == *key);
                    assert(i == j) by {
                        if i < j {
                            assert(self.entries@[i as int].key != self.entries@[j].key);
                        } else if j < i {
                            assert(self.entries@[j].key != self.entries@[i as int].key);
                        }
                    }
                }
                return Some(i);
            }
            i += 1;
        }
        None
    }

    /// Whether a record is stored under `key`.
    pub fn contains_key(&self, key: &Pubkey) -> (present: bool)
        ensures
            present == self@.contains_key(*key),
    {
        self.find(key).is_some()
    }

    /// The record stored under `key`, or `NotFound`.
    pub fn get(&self, key: &Pubkey) -> (found: Result<&CrateRecord, StoreError>)
        ensures
            match found {
                Ok(record) => self@.contains_key(*key) && record@ == self@[*key],
                Err(e) => e == StoreError::NotFound && !self@.contains_key(*key),
            },
    {
        match self.find(key) {
            Some(i) => Ok(&self.entries[i].record),
            None => Err(StoreError::NotFound),
        }
    }

    /// Stores `record` under `key`, which must be new to the store.
    pub fn create(&mut self, key: Pubkey, record: CrateRecord) -> (done: Result<(), StoreError>)
        ensures
            match done {
                Ok(_) => !old(self)@.contains_key(key) && final(self)@ == old(self)@.insert(
                    key,
                    record@,
                ),
                Err(e) => e == StoreError::KeyAlreadyExists && old(self)@.contains_key(key)
                    && final(self)@ == old(self)@,
            },
    {
        proof {
            use_type_invariant(&*self);
        }
        match self.find(&key) {
            Some(_) => Err(StoreError::KeyAlreadyExists),
            None => {
                let mut entries: Vec<Entry> = Vec::new();
                core::mem::swap(&mut self.entries, &mut entries);
                entries.push(Entry { key, record });
                self.entries = entries;
                proof {
                    let before = *old(self);
                    let after = *self;
                    let n = before.entries@.len() as int;
                    assert(after.entries@[n].key == key);
                    assert forall|k: Pubkey| after.holds(k) <==> (k == key || before.holds(k)) by {
                        if before.holds(k) {
                            let i = before.slot(k);
                            assert(after.entries@[i].key == k);
                        }
                    }
                    assert forall|k: Pubkey| after.holds(k) implies after.entries@[after.slot(
                        k,
                    )].record@ == before@.insert(key, record@)[k] by {
                        if k != key {
                            let j = before.slot(k);
                            assert(after.entries@[j].key == k);
                        }
                    }
                    assert(after@ =~= before@.insert(key, record@));
                }
                Ok(())
            },
        }
    }

    /// The records stored under `keys`, in the order of `keys`, or
    /// `NotFound` when one of them is missing.
    pub fn get_many<'a>(&'a self, keys: &Vec<Pubkey>) -> (found: Result<
        Vec<&'a CrateRecord>,
        StoreError,
    >)
        ensures
            match found {
                Ok(records) => {
                    &&& records@.len() == keys@.len()
                    &&& forall|i: int|
                        0 <= i < keys@.len() ==> self@.contains_key(#[trigger] keys@[i])
                            && (*records@[i])@ == self@[keys@[i]]
                },
                Err(e) => e == StoreError::NotFound && exists|i: int|
                    0 <= i < keys@.len() && !self@.contains_key(#[trigger] keys@[i]),
            },
    {
        let mut records: Vec<&'a CrateRecord> = Vec::new();
        let mut i: usize = 0;
        while i < keys.len()
            invariant
                i <= keys@.len(),
                records@.len() == i,
                forall|j: int|
                    0 <= j < i ==> self@.contains_key(#[trigger] keys@[j]) && (*records@[j])@
                        == self@[keys@[j]],
            decreases keys@.len() - i,
        {
            match self.get(&keys[i]) {
                Ok(record) => {
                    records.push(record);
                },
                Err(e) => {
                    return Err(e);
                },
            }
            i += 1;
        }
        Ok(records)
    }

    /// Replaces one list of links of the record stored under `key` and
    /// leaves everything else as it is.
    pub fn mutate_links(&mut self, key: &Pubkey, links: LinkUpdate) -> (done: Result<
        (),
        StoreError,
    >)
        ensures
            match done {
                Ok(_) => old(self)@.contains_key(*key) && final(self)@ == old(self)@.insert(
                    *key,
                    links.apply(old(self)@[*key]),
                ),
                Err(e) => e == StoreError::NotFound && !old(self)@.contains_key(*key)
                    && final(self)@ == old(self)@,
            },
    {
        proof {
            use_type_invariant(&*self);
        }
        match self.find(key) {
            None => Err(StoreError::NotFound),
            Some(i) => {
                let ghost updated = links.apply(old(self)@[*key]);
                let mut entries: Vec<Entry> = Vec::new();
                core::mem::swap(&mut self.entries, &mut entries);
                match links {
                    LinkUpdate::Parents(keys) => {
                        entries[i].record.parent_crates = keys;
                    },
                    LinkUpdate::Children(keys) => {
                        entries[i].record.child_crates = keys;
                    },
                }
                proof {
                    let before = *old(self);
                    assert(entries@.len() == before.entries@.len());
                    assert forall|a: int, b: int|
                        0 <= a < b < entries@.len() implies entries@[a].key != entries@[b].key by {
                        assert(before.entries@[a].key != before.entries@[b].key);
                    }
                }
                self.entries = entries;
                proof {
                    let before = *old(self);
                    let after = *self;
                    assert(after.entries@.len() == before.entries@.len());
                    assert forall|j: int|
                        0 <= j < after.entries@.len() implies #[trigger] after.entries@[j].key
                        == before.entries@[j].key by {}
                    assert(after.entries@[i as int].record@ == updated);
                    assert forall|k: Pubkey| after.holds(k) <==> before.holds(k) by {
                        if before.holds(k) {
                            let j = before.slot(k);
                            assert(after.entries@[j].key == k);
                        }
                        if after.holds(k) {
                            let j = after.slot(k);
                            assert(before.entries@[j].key == k);
                        }
                    }
                    assert forall|k: Pubkey| after.holds(k) implies after.entries@[after.slot(
                        k,
                    )].record@ == before@.insert(*key, updated)[k] by {
                        let a = after.slot(k);
                        let b = before.slot(k);
                        assert(before.entries@[a].key == k);
                        assert(a == b) by {
                            if a < b {
                                assert(before.entries@[a].key != before.entries@[b].key);
                            } else if b < a {
                                assert(before.entries@[b].key != before.entries@[a].key);
                            }
                        }
                    }
                    assert(after@ =~= before@.insert(*key, updated));
                }
                Ok(())
            },
        }
    }
}

} // verus!
