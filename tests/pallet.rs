use frame_support::sp_runtime::traits::BlakeTwo256;
use storagechain::identifier::{creation_bytes, derive_id};
use storagechain::types::action_from_seed;
use storagechain::{Action, Config, Error, Event, Pallet, Storage, StorageId};

const ALICE: u64 = 1;
const BOB: u64 = 2;

fn pallet(min: u32) -> Pallet {
    Pallet::new(Config { storage_minimum: min })
}

fn created(p: &mut Pallet, who: u64, num: u32, action: Action) -> StorageId {
    p.store(who, num, Some(action), 0).expect("store succeeds")
}

#[test]
fn new_pallet_is_empty() {
    let p = pallet(3);
    assert_eq!(p.counts_of_storage(), 0);
    assert_eq!(p.storage_minimum(), 3);
    assert!(p.events().is_empty());
}

#[test]
fn store_counts_and_stores_the_record() {
    let mut p = pallet(2);
    let id = p.store(ALICE, 7, Some(Action::Decrement), 0).unwrap();
    assert_eq!(p.counts_of_storage(), 1);
    assert_eq!(
        p.storages(&id),
        Some(Storage { num: 7, action: Action::Decrement, storer: ALICE })
    );
    assert_eq!(p.events(), &vec![Event::Created(Action::Decrement, id, ALICE)]);
}

#[test]
fn store_at_the_minimum_succeeds() {
    let mut p = pallet(5);
    assert!(p.store(ALICE, 5, Some(Action::Idle), 0).is_ok());
    assert_eq!(p.counts_of_storage(), 1);
}

#[test]
fn store_below_minimum_fails_and_changes_nothing() {
    let mut p = pallet(5);
    assert_eq!(p.store(ALICE, 4, Some(Action::Increment), 0), Err(Error::BelowMinimum));
    assert_eq!(p.counts_of_storage(), 0);
    assert!(p.events().is_empty());
}

#[test]
fn equal_records_get_distinct_identifiers() {
    let mut p = pallet(0);
    let a = created(&mut p, ALICE, 9, Action::Idle);
    let b = created(&mut p, ALICE, 9, Action::Idle);
    assert_ne!(a, b);
    assert_eq!(p.counts_of_storage(), 2);
    assert!(p.storages(&a).is_some());
    assert!(p.storages(&b).is_some());
}

#[test]
fn missing_action_is_drawn_from_the_seed() {
    let mut p = pallet(0);
    let a = p.store(ALICE, 1, None, 3).unwrap();
    let b = p.store(ALICE, 1, None, 4).unwrap();
    let c = p.store(ALICE, 1, None, 254).unwrap();
    assert_eq!(p.storages(&a).unwrap().action, Action::Increment);
    assert_eq!(p.storages(&b).unwrap().action, Action::Decrement);
    assert_eq!(p.storages(&c).unwrap().action, Action::Idle);
}

#[test]
fn given_action_ignores_the_seed() {
    let mut p = pallet(0);
    let a = p.store(ALICE, 1, Some(Action::Idle), 0).unwrap();
    assert_eq!(p.storages(&a).unwrap().action, Action::Idle);
}

#[test]
fn seed_modulo_three_selects_the_action() {
    assert_eq!(action_from_seed(0), Action::Increment);
    assert_eq!(action_from_seed(1), Action::Decrement);
    assert_eq!(action_from_seed(2), Action::Idle);
    assert_eq!(action_from_seed(255), Action::Increment);
}

#[test]
fn creation_bytes_are_the_scale_layout() {
    let s = Storage { num: 0x0102_0304, action: Action::Decrement, storer: 0x1122_3344_5566_7788 };
    assert_eq!(
        creation_bytes(&s, 0x0a0b_0c0d),
        vec![
            0x04, 0x03, 0x02, 0x01, 1, 0x88, 0x77, 0x66, 0x55, 0x44, 0x33, 0x22, 0x11, 0x0d, 0x0c,
            0x0b, 0x0a
        ]
    );
}

#[test]
fn identifier_is_the_blake2_256_of_the_creation_bytes() {
    let s = Storage { num: 5, action: Action::Increment, storer: ALICE };
    let bytes = creation_bytes(&s, 0);
    let expected: [u8; 32] =
        <BlakeTwo256 as frame_support::sp_runtime::traits::Hash>::hash(&bytes).0;
    assert_eq!(derive_id(&s, 0), expected);
    assert_ne!(derive_id(&s, 0), derive_id(&s, 1));
    let mut p = pallet(0);
    assert_eq!(p.store(ALICE, 5, Some(Action::Increment), 0), Ok(expected));
}

#[test]
fn retarget_by_non_owner_fails() {
    let mut p = pallet(0);
    let id = created(&mut p, ALICE, 4, Action::Increment);
    assert_eq!(p.change_action(BOB, id, Action::Idle), Err(Error::NotOwner));
    assert_eq!(
        p.storages(&id),
        Some(Storage { num: 4, action: Action::Increment, storer: ALICE })
    );
    assert_eq!(p.events().len(), 1);
}

#[test]
fn retarget_by_owner_changes_only_the_action() {
    let mut p = pallet(0);
    let id = created(&mut p, ALICE, 4, Action::Increment);
    assert_eq!(p.change_action(ALICE, id, Action::Decrement), Ok(()));
    assert_eq!(
        p.storages(&id),
        Some(Storage { num: 4, action: Action::Decrement, storer: ALICE })
    );
    assert_eq!(p.counts_of_storage(), 1);
    assert_eq!(p.events()[1], Event::ActionChanged(ALICE, id, Action::Decrement));
}

#[test]
fn retarget_of_missing_record_is_not_found() {
    let mut p = pallet(0);
    assert_eq!(p.change_action(ALICE, [7u8; 32], Action::Idle), Err(Error::NotFound));
    assert!(p.events().is_empty());
}

#[test]
fn update_storage_sets_the_action_without_an_event() {
    let mut p = pallet(0);
    let id = created(&mut p, ALICE, 4, Action::Increment);
    assert_eq!(p.update_storage(id, Action::Idle), Ok(()));
    assert_eq!(p.storages(&id), Some(Storage { num: 4, action: Action::Idle, storer: ALICE }));
    assert_eq!(p.events().len(), 1);
    assert_eq!(p.update_storage([0u8; 32], Action::Idle), Err(Error::NotFound));
}

#[test]
fn execute_increment_adds_one() {
    let mut p = pallet(0);
    let id = created(&mut p, ALICE, 10, Action::Decrement);
    assert_eq!(p.execute(ALICE, id, Some(Action::Increment)), Ok(()));
    assert_eq!(
        p.storages(&id),
        Some(Storage { num: 11, action: Action::Decrement, storer: ALICE })
    );
    assert_eq!(p.events()[1], Event::Incremented(ALICE, id, Action::Increment));
}

#[test]
fn execute_increment_n_times_adds_n() {
    let mut p = pallet(0);
    let id = created(&mut p, ALICE, 3, Action::Increment);
    for _ in 0..25 {
        assert_eq!(p.execute(ALICE, id, Some(Action::Increment)), Ok(()));
    }
    assert_eq!(p.storages(&id).unwrap().num, 28);
    assert_eq!(p.events().len(), 26);
}

#[test]
fn execute_increment_at_max_overflows() {
    let mut p = pallet(0);
    let id = created(&mut p, ALICE, u32::MAX - 1, Action::Increment);
    assert_eq!(p.execute(ALICE, id, Some(Action::Increment)), Ok(()));
    assert_eq!(p.storages(&id).unwrap().num, u32::MAX);
    assert_eq!(p.execute(ALICE, id, Some(Action::Increment)), Err(Error::Overflow));
    assert_eq!(p.storages(&id).unwrap().num, u32::MAX);
    assert_eq!(p.events().len(), 2);
}

#[test]
fn execute_decrement_subtracts_one() {
    let mut p = pallet(0);
    let id = created(&mut p, ALICE, 10, Action::Idle);
    assert_eq!(p.execute(ALICE, id, Some(Action::Decrement)), Ok(()));
    assert_eq!(p.storages(&id), Some(Storage { num: 9, action: Action::Idle, storer: ALICE }));
    assert_eq!(p.events()[1], Event::Decremented(ALICE, id, Action::Decrement));
}

#[test]
fn execute_decrement_at_zero_underflows() {
    let mut p = pallet(0);
    let id = created(&mut p, ALICE, 0, Action::Decrement);
    assert_eq!(p.execute(ALICE, id, Some(Action::Decrement)), Err(Error::Underflow));
    assert_eq!(p.storages(&id).unwrap().num, 0);
    assert_eq!(p.events().len(), 1);
}

#[test]
fn execute_idle_or_nothing_is_a_successful_no_op() {
    let mut p = pallet(0);
    let id = created(&mut p, ALICE, 6, Action::Increment);
    assert_eq!(p.execute(ALICE, id, Some(Action::Idle)), Ok(()));
    assert_eq!(p.execute(ALICE, id, None), Ok(()));
    assert_eq!(
        p.storages(&id),
        Some(Storage { num: 6, action: Action::Increment, storer: ALICE })
    );
    assert_eq!(p.events().len(), 1);
}

#[test]
fn execute_checks_existence_and_owner() {
    let mut p = pallet(0);
    let id = created(&mut p, ALICE, 6, Action::Increment);
    assert_eq!(p.execute(BOB, id, Some(Action::Increment)), Err(Error::NotOwner));
    assert_eq!(p.execute(ALICE, [9u8; 32], Some(Action::Increment)), Err(Error::NotFound));
    assert_eq!(p.storages(&id).unwrap().num, 6);
}

#[test]
fn create_increment_then_lookup() {
    let mut p = pallet(0);
    let id = created(&mut p, ALICE, 41, Action::Increment);
    assert_eq!(p.execute(ALICE, id, Some(Action::Increment)), Ok(()));
    assert_eq!(
        p.storages(&id),
        Some(Storage { num: 42, action: Action::Increment, storer: ALICE })
    );
}

#[test]
fn seeded_creation_increment_and_foreign_retarget() {
    let mut p = pallet(0);
    let id = p.store(ALICE, 5, None, 3).unwrap();
    assert_eq!(p.counts_of_storage(), 1);
    assert_eq!(p.execute(ALICE, id, Some(Action::Increment)), Ok(()));
    assert_eq!(p.storages(&id).unwrap().num, 6);
    assert_eq!(p.change_action(BOB, id, Action::Idle), Err(Error::NotOwner));
    assert_eq!(
        p.storages(&id),
        Some(Storage { num: 6, action: Action::Increment, storer: ALICE })
    );
}
