use vstd::prelude::*;
use crate::identifier::{creation_preimage, encode_record, lemma_u32_le_injective, u32_le};
use crate::pallet::{
    change_action_outcome, created, execute_outcome, new_record, owner_error, PalletView,
};
use crate::types::{AccountId, Action, Error, Storage, StorageId};

verus! {

/// A created record is found under its identifier with the given fields, and
/// the counter has grown by one.
pub proof fn created_record_is_found(s: PalletView, rec: Storage, id: StorageId)
    requires
        s.count < u32::MAX,
    ensures
        created(s, rec, id).records.contains_key(id),
        created(s, rec, id).records[id] == rec,
        created(s, rec, id).count == s.count + 1,
{
}

/// Two creations at different counter values hash different bytes, even for
/// equal records: equal contents never give the same hash input twice.
pub proof fn creation_preimages_differ(r1: Storage, n1: u32, r2: Storage, n2: u32)
    requires
        n1 != n2,
    ensures
        creation_preimage(r1, n1) != creation_preimage(r2, n2),
{
    let p1 = creation_preimage(r1, n1);
    let p2 = creation_preimage(r2, n2);
    assert(encode_record(r1).len() == 13);
    assert(encode_record(r2).len() == 13);
    assert(p1.subrange(13, 17) =~= u32_le(n1));
    assert(p2.subrange(13, 17) =~= u32_le(n2));
    if p1 == p2 {
        lemma_u32_le_injective(n1, n2);
    }
}

/// Creating the same record twice in a row hashes different bytes each time:
/// the second creation sees the counter that the first one advanced.
pub proof fn repeated_creation_hashes_new_bytes(s: PalletView, rec: Storage, id: StorageId)
    requires
        s.count < u32::MAX,
    ensures
        creation_preimage(rec, s.count) != creation_preimage(rec, created(s, rec, id).count),
{
    creation_preimages_differ(rec, s.count, rec, created(s, rec, id).count);
}

/// Retargeting by anyone but the storer fails with `NotOwner` and changes nothing.
pub proof fn retarget_by_non_owner_fails(s: PalletView, who: AccountId, id: StorageId, a: Action)
    requires
        s.records.contains_key(id),
        s.records[id].storer != who,
    ensures
        change_action_outcome(s, who, id, a) == (s, Err::<(), Error>(Error::NotOwner)),
{
}

/// Retargeting by the storer changes the record's action and nothing else of the records.
pub proof fn retarget_by_owner_changes_only_action(
    s: PalletView,
    who: AccountId,
    id: StorageId,
    a: Action,
)
    requires
        s.records.contains_key(id),
        s.records[id].storer == who,
    ensures
        change_action_outcome(s, who, id, a).1 == Ok::<(), Error>(()),
        change_action_outcome(s, who, id, a).0.records.dom() == s.records.dom(),
        change_action_outcome(s, who, id, a).0.records[id].action == a,
        change_action_outcome(s, who, id, a).0.records[id].num == s.records[id].num,
        change_action_outcome(s, who, id, a).0.records[id].storer == s.records[id].storer,
        forall|k: StorageId|
            k != id && s.records.contains_key(k) ==> #[trigger] change_action_outcome(
                s,
                who,
                id,
                a,
            ).0.records[k] == s.records[k],
        change_action_outcome(s, who, id, a).0.count == s.count,
{
    assert(change_action_outcome(s, who, id, a).0.records.dom() =~= s.records.dom());
}

/// Executing `Increment` `n` times in a row, stopping at the first failure.
pub open spec fn increment_times(s: PalletView, who: AccountId, id: StorageId, n: nat) -> (
    PalletView,
    Result<(), Error>,
)
    decreases n,
{
    if n == 0 {
        (s, Ok(()))
    } else {
        let (t, r) = increment_times(s, who, id, (n - 1) as nat);
        if r is Err {
            (t, r)
        } else {
            execute_outcome(t, who, id, Some(Action::Increment))
        }
    }
}

/// Incrementing `n` times adds `n` to the quantity while it fits, keeping the
/// action and the storer.
pub proof fn increment_n_times_adds_n(s: PalletView, who: AccountId, id: StorageId, n: nat)
    requires
        s.records.contains_key(id),
        s.records[id].storer == who,
        s.records[id].num + n <= u32::MAX,
    ensures
        increment_times(s, who, id, n).1 == Ok::<(), Error>(()),
        increment_times(s, who, id, n).0.records.contains_key(id),
        increment_times(s, who, id, n).0.records[id].num == s.records[id].num + n,
        increment_times(s, who, id, n).0.records[id].action == s.records[id].action,
        increment_times(s, who, id, n).0.records[id].storer == who,
    decreases n,
{
    if n > 0 {
        increment_n_times_adds_n(s, who, id, (n - 1) as nat);
    }
}

/// At the largest quantity, `Increment` fails with `Overflow` instead of wrapping.
pub proof fn increment_at_max_overflows(s: PalletView, who: AccountId, id: StorageId)
    requires
        s.records.contains_key(id),
        s.records[id].storer == who,
        s.records[id].num == u32::MAX,
    ensures
        execute_outcome(s, who, id, Some(Action::Increment)) == (s, Err::<(), Error>(Error::Overflow)),
{
}

/// Executing `Idle`, or no action, never changes the state (so deposits no
/// event), and succeeds whenever the caller owns an existing record.
pub proof fn idle_execution_changes_nothing(
    s: PalletView,
    who: AccountId,
    id: StorageId,
    action: Option<Action>,
)
    requires
        action == Some(Action::Idle) || action == None::<Action>,
    ensures
        execute_outcome(s, who, id, action).0 == s,
        owner_error(s, who, id) == None::<Error> ==> execute_outcome(s, who, id, action).1 == Ok::<
            (),
            Error,
        >(()),
{
}

/// Creating a record with `Increment` and then executing `Increment` on it
/// shows the quantity plus one, the action `Increment` and the same storer.
pub proof fn create_then_increment(
    s: PalletView,
    who: AccountId,
    q: u32,
    seed: u8,
    id: StorageId,
)
    requires
        q < u32::MAX,
    ensures
        ({
            let t = created(s, new_record(who, q, Some(Action::Increment), seed), id);
            &&& execute_outcome(t, who, id, Some(Action::Increment)).1 == Ok::<(), Error>(())
            &&& execute_outcome(t, who, id, Some(Action::Increment)).0.records[id] == Storage {
                num: (q + 1) as u32,
                action: Action::Increment,
                storer: who,
            }
        }),
{
}

} // verus!
