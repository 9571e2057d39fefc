use vstd::prelude::*;
use crate::types::{Error, Storage, StorageId};

verus! {

/// The record store: a map from identifier to record. Entries are never removed.
pub struct Storages {
    entries: Vec<(StorageId, Storage)>,
    contents: Ghost<Map<StorageId, Storage>>,
}

/// Whether two identifiers are the same.
fn same_id(a: &StorageId, b: &StorageId) -> (r: bool)
    ensures
        r == (*a == *b),
{
    let mut i: usize = 0;
    while i < 32
        invariant
            i <= 32,
            forall|j: int| 0 <= j < i ==> a[j] == b[j],
        decreases 32 - i,
    {
        if a[i] != b[i] {
            return false;
        }
        i = i + 1;
    }
    assert(a@ =~= b@);
    assert(*a =~= *b);
    true
}

impl View for Storages {
    type V = Map<StorageId, Storage>;

    closed spec fn view(&self) -> Map<StorageId, Storage> {
        self.contents@
    }
}

impl Storages {
    /// The entries hold each identifier once, and exactly the contents.
    pub closed spec fn wf(&self) -> bool {
        &&& forall|i: int, j: int|
            0 <= i < self.entries.len() && 0 <= j < self.entries.len() && i != j
                ==> self.entries@[i].0 != self.entries@[j].0
        &&& forall|i: int|
            0 <= i < self.entries.len() ==> #[trigger] self.contents@.contains_key(
                self.entries@[i].0,
            ) && self.contents@[self.entries@[i].0] == self.entries@[i].1
        &&& forall|k: StorageId|
            #[trigger] self.contents@.contains_key(k) ==> exists|i: int|
                0 <= i < self.entries.len() && self.entries@[i].0 == k
    }

    /// An empty store.
    pub fn new() -> (r: Self)
        ensures
            r.wf(),
            r@ == Map::<StorageId, Storage>::empty(),
    {
        Storages { entries: Vec::new(), contents: Ghost(Map::empty()) }
    }

    /// The position of `id` among the entries, if it is there.
    fn find(&self, id: &StorageId) -> (r: Option<usize>)
        requires
            self.wf(),
        ensures
            match r {
                Some(i) => i < self.entries.len() && self.entries@[i as int].0 == *id,
                None => !self@.contains_key(*id),
            },
    {
        let mut i: usize = 0;
        while i < self.entries.len()
            invariant
                i <= self.entries.len(),
                forall|j: int| 0 <= j < i ==> self.entries@[j].0 != *id,
            decreases self.entries.len() - i,
        {
            if same_id(&self.entries[i].0, id) {
                return Some(i);
            }
            i = i + 1;
        }
        None
    }

    /// A copy of the record stored under `id`.
    pub fn get(&self, id: &StorageId) -> (r: Option<Storage>)
        requires
            self.wf(),
        ensures
            r == (if self@.contains_key(*id) {
                Some(self@[*id])
            } else {
                None::<Storage>
            }),
    {
        match self.find(id) {
            Some(i) => Some(self.entries[i].1),
            None => None,
        }
    }

    /// Stores `s` under `id`, replacing any record already there.
    pub fn insert(&mut self, id: StorageId, s: Storage)
        requires
            old(self).wf(),
        ensures
            final(self).wf(),
            final(self)@ == old(self)@.insert(id, s),
    {
        let ghost before = self.entries@;
        match self.find(&id) {
            Some(i) => {
                self.entries.set(i, (id, s));
                self.contents = Ghost(self.contents@.insert(id, s));
                assert forall|k: StorageId| #[trigger] self.contents@.contains_key(k) implies exists|
                    j: int,
                | 0 <= j < self.entries.len() && self.entries@[j].0 == k by {
                    if k != id {
                        let j = choose|j: int| 0 <= j < before.len() && before[j].0 == k;
                        assert(self.entries@[j].0 == k);
                    } else {
                        assert(self.entries@[i as int].0 == k);
                    }
                }
            },
            None => {
                self.entries.push((id, s));
                self.contents = Ghost(self.contents@.insert(id, s));
                assert forall|k: StorageId| #[trigger] self.contents@.contains_key(k) implies exists|
                    j: int,
                | 0 <= j < self.entries.len() && self.entries@[j].0 == k by {
                    if k != id {
                        let j = choose|j: int| 0 <= j < before.len() && before[j].0 == k;
                        assert(self.entries@[j].0 == k);
                    } else {
                        assert(self.entries@[before.len() as int].0 == k);
                    }
                }
            },
        }
    }

    /// Replaces the record under `id`, which must already be there.
    pub fn update(&mut self, id: StorageId, s: Storage) -> (r: Result<(), Error>)
        requires
            old(self).wf(),
        ensures
            final(self).wf(),
            old(self)@.contains_key(id) ==> r == Ok::<(), Error>(())
                && final(self)@ == old(self)@.insert(id, s),
            !old(self)@.contains_key(id) ==> r == Err::<(), Error>(Error::NotFound)
                && final(self)@ == old(self)@,
    {
        match self.find(&id) {
            Some(_) => {
                self.insert(id, s);
                Ok(())
            },
            None => Err(Error::NotFound),
        }
    }
}

} // verus!
