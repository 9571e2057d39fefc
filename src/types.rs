use vstd::prelude::*;

verus! {

/// The identity of a caller, already authenticated by the host.
pub type AccountId = u64;

/// A 256-bit identifier of a stored record.
pub type StorageId = [u8; 32];

/// What executing a record does to its quantity.
#[derive(Clone, Copy, Debug, PartialEq, Eq, Structural)]
pub enum Action {
    Increment,
    Decrement,
    Idle,
}

/// One stored record: a quantity, its declared action and the account that stored it.
#[derive(Clone, Copy, Debug, PartialEq, Eq, Structural)]
pub struct Storage {
    pub num: u32,
    pub action: Action,
    pub storer: AccountId,
}

/// The host-supplied configuration of the store.
#[derive(Clone, Copy, Debug, PartialEq, Eq, Structural)]
pub struct Config {
    /// The smallest quantity that may be stored.
    pub storage_minimum: u32,
}

/// A notification deposited by each successful state change.
#[derive(Clone, Copy, Debug, PartialEq, Eq)]
pub enum Event {
    /// A record was created: its action, its identifier and the storer.
    Created(Action, StorageId, AccountId),
    /// The owner set a new action on a record.
    ActionChanged(AccountId, StorageId, Action),
    /// The owner incremented a record's quantity.
    Incremented(AccountId, StorageId, Action),
    /// The owner decremented a record's quantity.
    Decremented(AccountId, StorageId, Action),
}

/// Why an operation was refused. A refused operation changes nothing.
#[derive(Clone, Copy, Debug, PartialEq, Eq, Structural)]
pub enum Error {
    /// The quantity is below the configured minimum.
    BelowMinimum,
    /// An action value that the boundary could not accept.
    InvalidAction,
    /// The counter or a quantity would exceed `u32::MAX`.
    Overflow,
    /// A quantity of zero would be decremented.
    Underflow,
    /// The caller is not the record's storer.
    NotOwner,
    /// No record has the given identifier.
    NotFound,
}

/// The action that a random byte selects: its value modulo three.
pub open spec fn seeded_action(seed: u8) -> Action {
    if seed % 3 == 0 {
        Action::Increment
    } else if seed % 3 == 1 {
        Action::Decrement
    } else {
        Action::Idle
    }
}

/// The action a new record gets: the one given, else the one the seed selects.
pub open spec fn chosen_action(action: Option<Action>, seed: u8) -> Action {
    match action {
        Some(a) => a,
        None => seeded_action(seed),
    }
}

/// Maps the first byte of a random value to an action.
pub fn action_from_seed(seed: u8) -> (r: Action)
    ensures
        r == seeded_action(seed),
{
    let m: u8 = seed % 3;
    if m == 0 {
        Action::Increment
    } else if m == 1 {
        Action::Decrement
    } else {
        Action::Idle
    }
}

} // verus!
