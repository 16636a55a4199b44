//! What follows for every backend that keeps the store contracts.
//!
//! The contracts describe each call by what it does to a map. The laws here
//! are stated over those same maps, so they hold of any backend, whatever it
//! stores the maps in.

use crate::address::AddressView;
use crate::records::{PreKeyId, PreKeyRecordView, SignedPreKeyId, SignedPreKeyRecordView};
use crate::store::{is_trusted, replaces_identity};
use uuid::Uuid;
use vstd::prelude::*;

verus! {

/// A write to the pre-key pool: what a successful `save_pre_key` or
/// `remove_pre_key` does.
pub enum PreKeyWrite {
    Save { id: PreKeyId, record: PreKeyRecordView },
    Remove { id: PreKeyId },
}

/// The pool after one write.
pub open spec fn pool_after_write(
    pool: Map<PreKeyId, PreKeyRecordView>,
    write: PreKeyWrite,
) -> Map<PreKeyId, PreKeyRecordView> {
    match write {
        PreKeyWrite::Save { id, record } => pool.insert(id, record),
        PreKeyWrite::Remove { id } => pool.remove(id),
    }
}

/// The pool after a run of writes, first to last.
pub open spec fn pool_after(
    pool: Map<PreKeyId, PreKeyRecordView>,
    writes: Seq<PreKeyWrite>,
) -> Map<PreKeyId, PreKeyRecordView>
    decreases writes.len(),
{
    if writes.len() == 0 {
        pool
    } else {
        pool_after_write(pool_after(pool, writes.drop_last()), writes.last())
    }
}

/// Whether a write saves a record under `id`.
pub open spec fn saves_under(write: PreKeyWrite, id: PreKeyId) -> bool {
    write matches PreKeyWrite::Save { id: saved, .. } && saved == id
}

/// A removed pre-key is gone: right after `remove_pre_key(id)` succeeds, no
/// record is held under `id`, so `get_pre_key(id)` cannot succeed.
pub proof fn lemma_removed_pre_key_is_gone(pool: Map<PreKeyId, PreKeyRecordView>, id: PreKeyId)
    ensures
        !pool.remove(id).contains_key(id),
{
}

/// A consumed pre-key stays gone: after `remove_pre_key(id)`, no run of later
/// writes brings the id back unless one of them saves under it again.
pub proof fn lemma_consumed_pre_key_stays_gone(
    pool: Map<PreKeyId, PreKeyRecordView>,
    id: PreKeyId,
    writes: Seq<PreKeyWrite>,
)
    requires
        forall|i: int| 0 <= i < writes.len() ==> !saves_under(#[trigger] writes[i], id),
    ensures
        !pool_after(pool.remove(id), writes).contains_key(id),
    decreases writes.len(),
{
    if writes.len() > 0 {
        let earlier = writes.drop_last();
        assert forall|i: int| 0 <= i < earlier.len() implies !saves_under(
            #[trigger] earlier[i],
            id,
        ) by {
            assert(earlier[i] == writes[i]);
        }
        lemma_consumed_pre_key_stays_gone(pool, id, earlier);
        assert(!saves_under(writes[writes.len() - 1], id));
    }
}

/// Removing is idempotent: removing an id that is not held changes nothing,
/// so a second removal leaves the pool as the first did.
pub proof fn lemma_remove_pre_key_is_idempotent(
    pool: Map<PreKeyId, PreKeyRecordView>,
    id: PreKeyId,
)
    ensures
        !pool.contains_key(id) ==> pool.remove(id) == pool,
        pool.remove(id).remove(id) == pool.remove(id),
{
    if !pool.contains_key(id) {
        assert(pool.remove(id) =~= pool);
    }
    assert(pool.remove(id).remove(id) =~= pool.remove(id));
}

/// First use is trusted: an address with no identity on record trusts every
/// key.
pub proof fn lemma_first_use_is_trusted(
    identities: Map<AddressView, Seq<u8>>,
    address: AddressView,
    identity: Seq<u8>,
)
    requires
        !identities.contains_key(address),
    ensures
        is_trusted(identities, address, identity),
{
}

/// Once `save_identity(address, saved)` has succeeded, `address` trusts
/// `saved` and no other key, whatever was on record before.
pub proof fn lemma_saved_identity_is_the_trusted_one(
    identities: Map<AddressView, Seq<u8>>,
    address: AddressView,
    saved: Seq<u8>,
    other: Seq<u8>,
)
    ensures
        is_trusted(identities.insert(address, saved), address, saved),
        other != saved ==> !is_trusted(identities.insert(address, saved), address, other),
{
}

/// Trust follows the latest save: after `first` and then `second` have been
/// saved for an address, it trusts `second` and no longer `first`.
pub proof fn lemma_trust_follows_latest_save(
    identities: Map<AddressView, Seq<u8>>,
    address: AddressView,
    first: Seq<u8>,
    second: Seq<u8>,
)
    requires
        first != second,
    ensures
        is_trusted(identities.insert(address, first).insert(address, second), address, second),
        !is_trusted(identities.insert(address, first).insert(address, second), address, first),
        replaces_identity(identities.insert(address, first), address, second),
{
}

/// Saving an identity for one address leaves the trust of every other
/// address as it was.
pub proof fn lemma_trust_is_per_address(
    identities: Map<AddressView, Seq<u8>>,
    address: AddressView,
    saved: Seq<u8>,
    other_address: AddressView,
    identity: Seq<u8>,
)
    requires
        other_address != address,
    ensures
        is_trusted(identities.insert(address, saved), other_address, identity) == is_trusted(
            identities,
            other_address,
            identity,
        ),
{
}

/// A stored session is the one loaded: after `store_session(address, record)`
/// succeeds, the session on record for `address` is `record`.
pub proof fn lemma_stored_session_is_loaded(
    sessions: Map<AddressView, Seq<u8>>,
    address: AddressView,
    record: Seq<u8>,
)
    ensures
        sessions.insert(address, record).contains_key(address),
        sessions.insert(address, record)[address] == record,
{
}

/// Storing a session for one address leaves every other address as it was.
pub proof fn lemma_sessions_are_per_address(
    sessions: Map<AddressView, Seq<u8>>,
    address: AddressView,
    record: Seq<u8>,
    other_address: AddressView,
)
    requires
        other_address != address,
    ensures
        sessions.insert(address, record).contains_key(other_address) == sessions.contains_key(
            other_address,
        ),
        sessions.contains_key(other_address) ==> sessions.insert(address, record)[other_address]
            == sessions[other_address],
{
}

/// The sessions on record after a run of successful stores, first to last,
/// into a store that held none.
pub open spec fn sessions_after(stores: Seq<(AddressView, Seq<u8>)>) -> Map<AddressView, Seq<u8>>
    decreases stores.len(),
{
    if stores.len() == 0 {
        Map::empty()
    } else {
        sessions_after(stores.drop_last()).insert(stores.last().0, stores.last().1)
    }
}

/// An address that was never stored has no session: whatever was stored for
/// other addresses, nothing is on record for it.
pub proof fn lemma_unknown_address_has_no_session(
    stores: Seq<(AddressView, Seq<u8>)>,
    address: AddressView,
)
    requires
        forall|i: int| 0 <= i < stores.len() ==> (#[trigger] stores[i]).0 != address,
    ensures
        !sessions_after(stores).contains_key(address),
    decreases stores.len(),
{
    if stores.len() > 0 {
        let earlier = stores.drop_last();
        assert forall|i: int| 0 <= i < earlier.len() implies (#[trigger] earlier[i]).0
            != address by {
            assert(earlier[i] == stores[i]);
        }
        lemma_unknown_address_has_no_session(earlier, address);
        assert(stores[stores.len() - 1].0 != address);
    }
}

/// Saving a signed pre-key twice is saving it once: the second save of the
/// same record under the same id changes nothing.
pub proof fn lemma_signed_pre_key_save_is_idempotent(
    signed_pre_keys: Map<SignedPreKeyId, SignedPreKeyRecordView>,
    id: SignedPreKeyId,
    record: SignedPreKeyRecordView,
)
    ensures
        signed_pre_keys.insert(id, record).insert(id, record) == signed_pre_keys.insert(
            id,
            record,
        ),
        signed_pre_keys.insert(id, record).contains_key(id),
        signed_pre_keys.insert(id, record)[id] == record,
{
    assert(signed_pre_keys.insert(id, record).insert(id, record) =~= signed_pre_keys.insert(
        id,
        record,
    ));
}

/// Saving a pre-key twice is saving it once.
pub proof fn lemma_pre_key_save_is_idempotent(
    pool: Map<PreKeyId, PreKeyRecordView>,
    id: PreKeyId,
    record: PreKeyRecordView,
)
    ensures
        pool.insert(id, record).insert(id, record) == pool.insert(id, record),
{
    assert(pool.insert(id, record).insert(id, record) =~= pool.insert(id, record));
}

/// Sender keys are held per distribution: records stored for one sender in
/// two different distributions both stay, each is read back under its own
/// distribution, and the order of the two stores makes no difference.
pub proof fn lemma_sender_keys_are_per_distribution(
    sender_keys: Map<(AddressView, Uuid), Seq<u8>>,
    sender: AddressView,
    first_distribution: Uuid,
    first_record: Seq<u8>,
    second_distribution: Uuid,
    second_record: Seq<u8>,
)
    requires
        first_distribution != second_distribution,
    ensures
        ({
            let one_way = sender_keys.insert((sender, first_distribution), first_record).insert(
                (sender, second_distribution),
                second_record,
            );
            let other_way = sender_keys.insert((sender, second_distribution), second_record).insert(
                (sender, first_distribution),
                first_record,
            );
            &&& one_way == other_way
            &&& one_way.contains_key((sender, first_distribution))
            &&& one_way[(sender, first_distribution)] == first_record
            &&& one_way.contains_key((sender, second_distribution))
            &&& one_way[(sender, second_distribution)] == second_record
        }),
{
    let one_way = sender_keys.insert((sender, first_distribution), first_record).insert(
        (sender, second_distribution),
        second_record,
    );
    let other_way = sender_keys.insert((sender, second_distribution), second_record).insert(
        (sender, first_distribution),
        first_record,
    );
    assert(one_way =~= other_way);
}

} // verus!
