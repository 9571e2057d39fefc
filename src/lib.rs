//! A keyed record store with owner-gated mutation.
//!
//! Records are addressed by an identifier hashed from their contents and the
//! creation sequence number. Owners may retarget a record's action or execute
//! an action against its quantity; every successful change deposits an event.
pub mod types;
pub mod identifier;
pub mod storages;
pub mod pallet;
pub mod laws;

pub use types::{AccountId, Action, Config, Error, Event, Storage, StorageId};
pub use storages::Storages;
pub use pallet::{Pallet, PalletView};
