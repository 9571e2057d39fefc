use vstd::prelude::*;
use crate::identifier::{derive_id, storage_id_of};
use crate::storages::Storages;
use crate::types::{
    action_from_seed, chosen_action, AccountId, Action, Config, Error, Event, Storage, StorageId,
};

verus! {

/// The abstract state of the store.
pub struct PalletView {
    /// The configured smallest quantity.
    pub minimum: u32,
    /// How many records have been created.
    pub count: u32,
    /// The stored records by identifier.
    pub records: Map<StorageId, Storage>,
    /// The events deposited so far, oldest first.
    pub events: Seq<Event>,
}

/// The record that `who` creates from a quantity, an optional action and a random byte.
pub open spec fn new_record(who: AccountId, num: u32, action: Option<Action>, seed: u8) -> Storage {
    Storage { num, action: chosen_action(action, seed), storer: who }
}

/// The state after `rec` is created under `id`.
pub open spec fn created(s: PalletView, rec: Storage, id: StorageId) -> PalletView {
    PalletView {
        minimum: s.minimum,
        count: (s.count + 1) as u32,
        records: s.records.insert(id, rec),
        events: s.events.push(Event::Created(rec.action, id, rec.storer)),
    }
}

/// The state with the record under `id` replaced by `rec` and `ev` deposited.
pub open spec fn replaced(s: PalletView, id: StorageId, rec: Storage, ev: Event) -> PalletView {
    PalletView {
        minimum: s.minimum,
        count: s.count,
        records: s.records.insert(id, rec),
        events: s.events.push(ev),
    }
}

/// Whether a quantity may be created: it reaches the minimum.
pub open spec fn store_error(s: PalletView, num: u32) -> Option<Error> {
    if num < s.minimum {
        Some(Error::BelowMinimum)
    } else if s.count == u32::MAX {
        Some(Error::Overflow)
    } else {
        None
    }
}

/// The existence and ownership check shared by retargeting and executing.
pub open spec fn owner_error(s: PalletView, who: AccountId, id: StorageId) -> Option<Error> {
    if !s.records.contains_key(id) {
        Some(Error::NotFound)
    } else if s.records[id].storer != who {
        Some(Error::NotOwner)
    } else {
        None
    }
}

/// The outcome of setting the action of the record under `id` (no owner check, no event).
pub open spec fn update_outcome(s: PalletView, id: StorageId, action: Action) -> (
    PalletView,
    Result<(), Error>,
) {
    if !s.records.contains_key(id) {
        (s, Err(Error::NotFound))
    } else {
        let rec = s.records[id];
        (
            PalletView {
                minimum: s.minimum,
                count: s.count,
                records: s.records.insert(
                    id,
                    Storage { num: rec.num, action, storer: rec.storer },
                ),
                events: s.events,
            },
            Ok(()),
        )
    }
}

/// The outcome of `who` retargeting the record under `id` to `action`.
pub open spec fn change_action_outcome(
    s: PalletView,
    who: AccountId,
    id: StorageId,
    action: Action,
) -> (PalletView, Result<(), Error>) {
    match owner_error(s, who, id) {
        Some(e) => (s, Err(e)),
        None => {
            let rec = s.records[id];
            (
                replaced(
                    s,
                    id,
                    Storage { num: rec.num, action, storer: rec.storer },
                    Event::ActionChanged(who, id, action),
                ),
                Ok(()),
            )
        },
    }
}

/// The outcome of `who` executing `action` on the record under `id`.
pub open spec fn execute_outcome(
    s: PalletView,
    who: AccountId,
    id: StorageId,
    action: Option<Action>,
) -> (PalletView, Result<(), Error>) {
    match owner_error(s, who, id) {
        Some(e) => (s, Err(e)),
        None => {
            let rec = s.records[id];
            match action {
                Some(Action::Increment) => if rec.num == u32::MAX {
                    (s, Err(Error::Overflow))
                } else {
                    (
                        replaced(
                            s,
                            id,
                            Storage { num: (rec.num + 1) as u32, action: rec.action, storer: rec.storer },
                            Event::Incremented(who, id, Action::Increment),
                        ),
                        Ok(()),
                    )
                },
                Some(Action::Decrement) => if rec.num == 0 {
                    (s, Err(Error::Underflow))
                } else {
                    (
                        replaced(
                            s,
                            id,
                            Storage { num: (rec.num - 1) as u32, action: rec.action, storer: rec.storer },
                            Event::Decremented(who, id, Action::Decrement),
                        ),
                        Ok(()),
                    )
                },
                _ => (s, Ok(())),
            }
        },
    }
}

/// The action engine: the record store, the creation counter and the deposited events.
pub struct Pallet {
    config: Config,
    counts_of_storage: u32,
    storages: Storages,
    events: Vec<Event>,
}

impl View for Pallet {
    type V = PalletView;

    closed spec fn view(&self) -> PalletView {
        PalletView {
            minimum: self.config.storage_minimum,
            count: self.counts_of_storage,
            records: self.storages@,
            events: self.events@,
        }
    }
}

impl Pallet {
    /// The store's internal invariant.
    pub closed spec fn wf(&self) -> bool {
        self.storages.wf()
    }

    /// An empty store under `config`.
    pub fn new(config: Config) -> (r: Self)
        ensures
            r.wf(),
            r@.minimum == config.storage_minimum,
            r@.count == 0,
            r@.records == Map::<StorageId, Storage>::empty(),
            r@.events == Seq::<Event>::empty(),
    {
        Pallet { config, counts_of_storage: 0, storages: Storages::new(), events: Vec::new() }
    }

    /// Creates a record for `who` with quantity `val_to_add`. Without an action,
    /// `seed` (the first byte of a random value) selects one. Returns its identifier.
    pub fn store(
        &mut self,
        who: AccountId,
        val_to_add: u32,
        action: Option<Action>,
        seed: u8,
    ) -> (r: Result<StorageId, Error>)
        requires
            old(self).wf(),
        ensures
            final(self).wf(),
            match store_error(old(self)@, val_to_add) {
                Some(e) => r == Err::<StorageId, Error>(e) && final(self)@ == old(self)@,
                None => match r {
                    Ok(id) => id@ == storage_id_of(
                        new_record(who, val_to_add, action, seed),
                        old(self)@.count,
                    ) && final(self)@ == created(
                        old(self)@,
                        new_record(who, val_to_add, action, seed),
                        id,
                    ),
                    Err(_) => false,
                },
            },
    {
        if val_to_add < self.config.storage_minimum {
            return Err(Error::BelowMinimum);
        }
        let chosen = match action {
            Some(a) => a,
            None => action_from_seed(seed),
        };
        let storage_item = Storage { num: val_to_add, action: chosen, storer: who };
        self.add_to_storage(storage_item)
    }

    /// Inserts `storage` under its derived identifier and counts it, or neither.
    fn add_to_storage(&mut self, storage: Storage) -> (r: Result<StorageId, Error>)
        requires
            old(self).wf(),
        ensures
            final(self).wf(),
            old(self)@.count == u32::MAX ==> r == Err::<StorageId, Error>(Error::Overflow)
                && final(self)@ == old(self)@,
            old(self)@.count < u32::MAX ==> match r {
                Ok(id) => id@ == storage_id_of(storage, old(self)@.count) && final(self)@
                    == created(old(self)@, storage, id),
                Err(_) => false,
            },
    {
        let storage_id = derive_id(&storage, self.counts_of_storage);
        let new_cnt = match self.counts_of_storage.checked_add(1) {
            Some(c) => c,
            None => return Err(Error::Overflow),
        };
        self.storages.insert(storage_id, storage);
        self.counts_of_storage = new_cnt;
        self.events.push(Event::Created(storage.action, storage_id, storage.storer));
        Ok(storage_id)
    }

    /// Whether `account` stored the record under `storage_id`.
    fn is_storage_owner(&self, storage_id: &StorageId, account: AccountId) -> (r: Result<bool, Error>)
        requires
            self.wf(),
        ensures
            r == (if self@.records.contains_key(*storage_id) {
                Ok::<bool, Error>(self@.records[*storage_id].storer == account)
            } else {
                Err::<bool, Error>(Error::NotFound)
            }),
    {
        match self.storages.get(storage_id) {
            Some(item) => Ok(item.storer == account),
            None => Err(Error::NotFound),
        }
    }

    /// Sets a new action on the record under `storage_id`, which must belong to `who`.
    pub fn change_action(
        &mut self,
        who: AccountId,
        storage_id: StorageId,
        new_action: Action,
    ) -> (r: Result<(), Error>)
        requires
            old(self).wf(),
        ensures
            final(self).wf(),
            (final(self)@, r) == change_action_outcome(old(self)@, who, storage_id, new_action),
    {
        match self.is_storage_owner(&storage_id, who) {
            Err(e) => return Err(e),
            Ok(false) => return Err(Error::NotOwner),
            Ok(true) => {},
        }
        let r = self.update_storage(storage_id, new_action);
        if r.is_err() {
            return r;
        }
        self.events.push(Event::ActionChanged(who, storage_id, new_action));
        Ok(())
    }

    /// Sets the action of the record under `storage_id`, keeping its quantity and storer.
    pub fn update_storage(&mut self, storage_id: StorageId, action: Action) -> (r: Result<(), Error>)
        requires
            old(self).wf(),
        ensures
            final(self).wf(),
            (final(self)@, r) == update_outcome(old(self)@, storage_id, action),
    {
        let payload = match self.storages.get(&storage_id) {
            Some(p) => p,
            None => return Err(Error::NotFound),
        };
        let new_update = Storage { num: payload.num, action, storer: payload.storer };
        self.storages.update(storage_id, new_update)
    }

    /// Executes `action` on the record under `storage_id`, which must belong to `who`.
    /// The record's own action is left as it is.
    pub fn execute(
        &mut self,
        who: AccountId,
        storage_id: StorageId,
        action: Option<Action>,
    ) -> (r: Result<(), Error>)
        requires
            old(self).wf(),
        ensures
            final(self).wf(),
            (final(self)@, r) == execute_outcome(old(self)@, who, storage_id, action),
    {
        match self.is_storage_owner(&storage_id, who) {
            Err(e) => return Err(e),
            Ok(false) => return Err(Error::NotOwner),
            Ok(true) => {},
        }
        let storage_item = match self.storages.get(&storage_id) {
            Some(item) => item,
            None => return Err(Error::NotFound),
        };
        match action {
            Some(Action::Increment) => self.increment(storage_item, storage_id, who),
            Some(Action::Decrement) => self.decrement(storage_item, storage_id, who),
            _ => Ok(()),
        }
    }

    /// Stores `storage` under `id` with its quantity plus one, unless that overflows.
    fn increment(&mut self, storage: Storage, id: StorageId, sender: AccountId) -> (r: Result<(), Error>)
        requires
            old(self).wf(),
        ensures
            final(self).wf(),
            storage.num == u32::MAX ==> r == Err::<(), Error>(Error::Overflow) && final(self)@
                == old(self)@,
            storage.num < u32::MAX ==> r == Ok::<(), Error>(()) && final(self)@ == replaced(
                old(self)@,
                id,
                Storage { num: (storage.num + 1) as u32, action: storage.action, storer: storage.storer },
                Event::Incremented(sender, id, Action::Increment),
            ),
    {
        let num_inc = match storage.num.checked_add(1) {
            Some(n) => n,
            None => return Err(Error::Overflow),
        };
        let updated = Storage { num: num_inc, action: storage.action, storer: storage.storer };
        self.storages.insert(id, updated);
        self.events.push(Event::Incremented(sender, id, Action::Increment));
        Ok(())
    }

    /// Stores `storage` under `id` with its quantity minus one, unless it is zero.
    fn decrement(&mut self, storage: Storage, id: StorageId, sender: AccountId) -> (r: Result<(), Error>)
        requires
            old(self).wf(),
        ensures
            final(self).wf(),
            storage.num == 0 ==> r == Err::<(), Error>(Error::Underflow)
                && final(self)@ == old(self)@,
            storage.num > 0 ==> r == Ok::<(), Error>(()) && final(self)@ == replaced(
                old(self)@,
                id,
                Storage { num: (storage.num - 1) as u32, action: storage.action, storer: storage.storer },
                Event::Decremented(sender, id, Action::Decrement),
            ),
    {
        let num_dec = match storage.num.checked_sub(1) {
            Some(n) => n,
            None => return Err(Error::Underflow),
        };
        let updated = Storage { num: num_dec, action: storage.action, storer: storage.storer };
        self.storages.insert(id, updated);
        self.events.push(Event::Decremented(sender, id, Action::Decrement));
        Ok(())
    }

    /// How many records have been created.
    pub fn counts_of_storage(&self) -> (r: u32)
        ensures
            r == self@.count,
    {
        self.counts_of_storage
    }

    /// A copy of the record under `storage_id`, if there is one.
    pub fn storages(&self, storage_id: &StorageId) -> (r: Option<Storage>)
        requires
            self.wf(),
        ensures
            r == (if self@.records.contains_key(*storage_id) {
                Some(self@.records[*storage_id])
            } else {
                None::<Storage>
            }),
    {
        self.storages.get(storage_id)
    }

    /// The events deposited so far, oldest first.
    pub fn events(&self) -> (r: &Vec<Event>)
        ensures
            r@ == self@.events,
    {
        &self.events
    }

    /// The configured smallest quantity.
    pub fn storage_minimum(&self) -> (r: u32)
        ensures
            r == self@.minimum,
    {
        self.config.storage_minimum
    }
}

} // verus!
