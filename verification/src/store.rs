//! The five store roles and the capability that joins four of them.
//!
//! Each role is a trait. A spec function names the state the role owns, as a
//! map; every method says what it answers from that state and what it leaves
//! behind. Any call may fail with [`StoreError::StorageFault`], and then the
//! state is what it was: a backend never leaves a record half-written.

use crate::address::{AddressView, ProtocolAddress};
use crate::context::{Context, Direction};
use crate::error::StoreError;
use crate::keys::{IdentityKey, IdentityKeyPair, IdentityKeyPairView};
use crate::records::{
    PreKeyId, PreKeyRecord, PreKeyRecordView, SenderKeyRecord, SessionRecord, SignedPreKeyId,
    SignedPreKeyRecord, SignedPreKeyRecordView,
};
use uuid::Uuid;
use vstd::prelude::*;

verus! {

/// Whether `identity` may be used with `address`, given the identities on
/// record: trust on first use.
///
/// An address with nothing on record trusts any key. An address with a key on
/// record trusts that key and no other.
pub open spec fn is_trusted(
    identities: Map<AddressView, Seq<u8>>,
    address: AddressView,
    identity: Seq<u8>,
) -> bool {
    identities.contains_key(address) ==> identities[address] == identity
}

/// Whether recording `identity` for `address` replaces a different key that
/// was on record.
pub open spec fn replaces_identity(
    identities: Map<AddressView, Seq<u8>>,
    address: AddressView,
    identity: Seq<u8>,
) -> bool {
    identities.contains_key(address) && identities[address] != identity
}

/// Owns the local identity and the ledger of remote identities.
pub trait IdentityKeyStore {
    /// The local account's key pair.
    spec fn identity_key_pair(&self) -> IdentityKeyPairView;

    /// The local account's registration id.
    spec fn local_registration_id(&self) -> u32;

    /// The identity key on record for each remote address that has one.
    spec fn identities(&self) -> Map<AddressView, Seq<u8>>;

    /// Reads the local key pair.
    fn get_identity_key_pair(&self, ctx: Option<Context>) -> (result: Result<
        IdentityKeyPair,
        StoreError,
    >)
        ensures
            match result {
                Ok(pair) => pair@ == self.identity_key_pair(),
                Err(error) => error == StoreError::StorageFault,
            },
    ;

    /// Reads the local registration id.
    fn get_local_registration_id(&self, ctx: Option<Context>) -> (result: Result<u32, StoreError>)
        ensures
            match result {
                Ok(id) => id == self.local_registration_id(),
                Err(error) => error == StoreError::StorageFault,
            },
    ;

    /// Records `identity` as the key of `address`, in place of any key on
    /// record, and reports whether a different key was replaced.
    ///
    /// The answer is `true` only for a changed identity: a first-seen
    /// address and a repeated key both give `false`. The local key pair and
    /// registration id are never touched.
    fn save_identity(
        &mut self,
        address: &ProtocolAddress,
        identity: &IdentityKey,
        ctx: Option<Context>,
    ) -> (result: Result<bool, StoreError>)
        ensures
            final(self).identity_key_pair() == old(self).identity_key_pair(),
            final(self).local_registration_id() == old(self).local_registration_id(),
            match result {
                Ok(replaced) => {
                    &&& final(self).identities() == old(self).identities().insert(
                        address@,
                        identity@,
                    )
                    &&& replaced == replaces_identity(old(self).identities(), address@, identity@)
                },
                Err(error) => {
                    &&& error == StoreError::StorageFault
                    &&& final(self).identities() == old(self).identities()
                },
            },
    ;

    /// Whether `identity` may be used with `address`.
    ///
    /// The answer is the same in both directions.
    fn is_trusted_identity(
        &self,
        address: &ProtocolAddress,
        identity: &IdentityKey,
        direction: Direction,
        ctx: Option<Context>,
    ) -> (result: Result<bool, StoreError>)
        ensures
            match result {
                Ok(trusted) => trusted == is_trusted(self.identities(), address@, identity@),
                Err(error) => error == StoreError::StorageFault,
            },
    ;

    /// The identity key on record for `address`, if there is one.
    fn get_identity(&self, address: &ProtocolAddress, ctx: Option<Context>) -> (result: Result<
        Option<IdentityKey>,
        StoreError,
    >)
        ensures
            match result {
                Ok(Some(identity)) => {
                    &&& self.identities().contains_key(address@)
                    &&& identity@ == self.identities()[address@]
                },
                Ok(None) => !self.identities().contains_key(address@),
                Err(error) => error == StoreError::StorageFault,
            },
    ;
}

/// Owns the pool of one-time pre-keys.
pub trait PreKeyStore {
    /// The pre-keys in the pool, by id.
    spec fn pre_keys(&self) -> Map<PreKeyId, PreKeyRecordView>;

    /// The pre-key held under `prekey_id`.
    ///
    /// An id that was never saved, or that has been removed, is
    /// [`StoreError::InvalidPreKeyId`].
    fn get_pre_key(&self, prekey_id: PreKeyId, ctx: Option<Context>) -> (result: Result<
        PreKeyRecord,
        StoreError,
    >)
        ensures
            match result {
                Ok(record) => {
                    &&& self.pre_keys().contains_key(prekey_id)
                    &&& record@ == self.pre_keys()[prekey_id]
                },
                Err(StoreError::InvalidPreKeyId) => !self.pre_keys().contains_key(prekey_id),
                Err(error) => error == StoreError::StorageFault,
            },
    ;

    /// Holds `record` under `prekey_id`, in place of any record held there.
    fn save_pre_key(&mut self, prekey_id: PreKeyId, record: &PreKeyRecord, ctx: Option<Context>) -> (result:
        Result<(), StoreError>)
        ensures
            match result {
                Ok(()) => final(self).pre_keys() == old(self).pre_keys().insert(
                    prekey_id,
                    record@,
                ),
                Err(error) => {
                    &&& error == StoreError::StorageFault
                    &&& final(self).pre_keys() == old(self).pre_keys()
                },
            },
    ;

    /// Drops whatever is held under `prekey_id`. Removing an id that is not
    /// held succeeds and changes nothing.
    fn remove_pre_key(&mut self, prekey_id: PreKeyId, ctx: Option<Context>) -> (result: Result<
        (),
        StoreError,
    >)
        ensures
            match result {
                Ok(()) => final(self).pre_keys() == old(self).pre_keys().remove(prekey_id),
                Err(error) => {
                    &&& error == StoreError::StorageFault
                    &&& final(self).pre_keys() == old(self).pre_keys()
                },
            },
    ;
}

/// Owns the rotating signed pre-keys. They are kept after use, so the role
/// has no removal.
pub trait SignedPreKeyStore {
    /// The signed pre-keys held, by id.
    spec fn signed_pre_keys(&self) -> Map<SignedPreKeyId, SignedPreKeyRecordView>;

    /// The signed pre-key held under `signed_prekey_id`.
    ///
    /// An id that was never saved is [`StoreError::InvalidSignedPreKeyId`].
    fn get_signed_pre_key(&self, signed_prekey_id: SignedPreKeyId, ctx: Option<Context>) -> (result:
        Result<SignedPreKeyRecord, StoreError>)
        ensures
            match result {
                Ok(record) => {
                    &&& self.signed_pre_keys().contains_key(signed_prekey_id)
                    &&& record@ == self.signed_pre_keys()[signed_prekey_id]
                },
                Err(StoreError::InvalidSignedPreKeyId) => !self.signed_pre_keys().contains_key(
                    signed_prekey_id,
                ),
                Err(error) => error == StoreError::StorageFault,
            },
    ;

    /// Holds `record` under `signed_prekey_id`, in place of any record held
    /// there.
    fn save_signed_pre_key(
        &mut self,
        signed_prekey_id: SignedPreKeyId,
        record: &SignedPreKeyRecord,
        ctx: Option<Context>,
    ) -> (result: Result<(), StoreError>)
        ensures
            match result {
                Ok(()) => final(self).signed_pre_keys() == old(self).signed_pre_keys().insert(
                    signed_prekey_id,
                    record@,
                ),
                Err(error) => {
                    &&& error == StoreError::StorageFault
                    &&& final(self).signed_pre_keys() == old(self).signed_pre_keys()
                },
            },
    ;
}

/// Owns the ratchet session held with each remote address.
pub trait SessionStore {
    /// The session record of each address that has one.
    spec fn sessions(&self) -> Map<AddressView, Seq<u8>>;

    /// The session held with `address`, if there is one. No session is an
    /// ordinary answer: it is how a new session gets established.
    fn load_session(&self, address: &ProtocolAddress, ctx: Option<Context>) -> (result: Result<
        Option<SessionRecord>,
        StoreError,
    >)
        ensures
            match result {
                Ok(Some(record)) => {
                    &&& self.sessions().contains_key(address@)
                    &&& record@ == self.sessions()[address@]
                },
                Ok(None) => !self.sessions().contains_key(address@),
                Err(error) => error == StoreError::StorageFault,
            },
    ;

    /// Holds `record` as the session with `address`, in place of any session
    /// held with it.
    fn store_session(
        &mut self,
        address: &ProtocolAddress,
        record: &SessionRecord,
        ctx: Option<Context>,
    ) -> (result: Result<(), StoreError>)
        ensures
            match result {
                Ok(()) => final(self).sessions() == old(self).sessions().insert(
                    address@,
                    record@,
                ),
                Err(error) => {
                    &&& error == StoreError::StorageFault
                    &&& final(self).sessions() == old(self).sessions()
                },
            },
    ;
}

/// Owns the group sender-key state, one record for each pair of a sender and
/// a distribution.
pub trait SenderKeyStore {
    /// The sender-key record of each pair of sender and distribution that has
    /// one.
    spec fn sender_keys(&self) -> Map<(AddressView, Uuid), Seq<u8>>;

    /// Holds `record` for `sender` in the distribution `distribution_id`, in
    /// place of any record held for that pair. Records of the same sender in
    /// other distributions stay.
    fn store_sender_key(
        &mut self,
        sender: &ProtocolAddress,
        distribution_id: Uuid,
        record: &SenderKeyRecord,
        ctx: Option<Context>,
    ) -> (result: Result<(), StoreError>)
        ensures
            match result {
                Ok(()) => final(self).sender_keys() == old(self).sender_keys().insert(
                    (sender@, distribution_id),
                    record@,
                ),
                Err(error) => {
                    &&& error == StoreError::StorageFault
                    &&& final(self).sender_keys() == old(self).sender_keys()
                },
            },
    ;

    /// The record held for `sender` in the distribution `distribution_id`, if
    /// there is one. Reading changes nothing.
    fn load_sender_key(
        &mut self,
        sender: &ProtocolAddress,
        distribution_id: Uuid,
        ctx: Option<Context>,
    ) -> (result: Result<Option<SenderKeyRecord>, StoreError>)
        ensures
            final(self).sender_keys() == old(self).sender_keys(),
            match result {
                Ok(Some(record)) => {
                    &&& old(self).sender_keys().contains_key((sender@, distribution_id))
                    &&& record@ == old(self).sender_keys()[(sender@, distribution_id)]
                },
                Ok(None) => !old(self).sender_keys().contains_key((sender@, distribution_id)),
                Err(error) => error == StoreError::StorageFault,
            },
    ;
}

/// Everything the protocol core needs for one-to-one sessions: a backend
/// that fills the session, pre-key, signed pre-key and identity roles at
/// once. Joining the roles adds no rule of its own.
pub trait ProtocolStore: SessionStore + PreKeyStore + SignedPreKeyStore + IdentityKeyStore {

}

} // verus!
