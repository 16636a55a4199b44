//! Stores that keep everything in memory.
//!
//! They never fail with a storage fault, so each call's answer is fixed by
//! what the store holds. They serve tests, short-lived clients, and as the
//! evidence that the store contracts can be met.

use crate::address::{AddressView, ProtocolAddress};
use crate::context::{Context, Direction};
use crate::distribution::same_distribution;
use crate::error::StoreError;
use crate::keys::{IdentityKey, IdentityKeyPair, IdentityKeyPairView};
use crate::records::{
    PreKeyId, PreKeyRecord, PreKeyRecordView, SenderKeyRecord, SessionRecord, SignedPreKeyId,
    SignedPreKeyRecord, SignedPreKeyRecordView,
};
use crate::store::{
    IdentityKeyStore, PreKeyStore, ProtocolStore, SenderKeyStore, SessionStore, SignedPreKeyStore,
};
use crate::table::{Table, TableKey};
use std::collections::HashMap;
use uuid::Uuid;
use vstd::prelude::*;

verus! {

impl TableKey for ProtocolAddress {
    fn same_key(&self, other: &Self) -> (same: bool) {
        *self == *other
    }
}

/// A sender in one distribution: the key of a sender-key record.
pub struct SenderKeyName {
    sender: ProtocolAddress,
    distribution_id: Uuid,
}

impl View for SenderKeyName {
    type V = (AddressView, Uuid);

    closed spec fn view(&self) -> (AddressView, Uuid) {
        (self.sender@, self.distribution_id)
    }
}

impl SenderKeyName {
    /// The name of `sender` in the distribution `distribution_id`.
    pub fn new(sender: ProtocolAddress, distribution_id: Uuid) -> (name: Self)
        ensures
            name@ == (sender@, distribution_id),
    {
        SenderKeyName { sender, distribution_id }
    }
}

impl TableKey for SenderKeyName {
    fn same_key(&self, other: &Self) -> (same: bool) {
        self.sender == other.sender && same_distribution(
            &self.distribution_id,
            &other.distribution_id,
        )
    }
}

/// An identity store in memory.
pub struct InMemIdentityKeyStore {
    key_pair: IdentityKeyPair,
    registration_id: u32,
    known_keys: Table<ProtocolAddress, IdentityKey>,
}

impl InMemIdentityKeyStore {
    /// The store of an account with the given key pair and registration id,
    /// with no remote identity on record.
    pub fn new(key_pair: IdentityKeyPair, registration_id: u32) -> (store: Self)
        ensures
            store.identity_key_pair() == key_pair@,
            store.local_registration_id() == registration_id,
            store.identities() == Map::<AddressView, Seq<u8>>::empty(),
    {
        InMemIdentityKeyStore { key_pair, registration_id, known_keys: Table::new() }
    }
}

impl IdentityKeyStore for InMemIdentityKeyStore {
    closed spec fn identity_key_pair(&self) -> IdentityKeyPairView {
        self.key_pair@
    }

    closed spec fn local_registration_id(&self) -> u32 {
        self.registration_id
    }

    closed spec fn identities(&self) -> Map<AddressView, Seq<u8>> {
        self.known_keys@
    }

    fn get_identity_key_pair(&self, ctx: Option<Context>) -> (result: Result<
        IdentityKeyPair,
        StoreError,
    >)
        ensures
            result is Ok,
    {
        Ok(self.key_pair.clone())
    }

    fn get_local_registration_id(&self, ctx: Option<Context>) -> (result: Result<u32, StoreError>)
        ensures
            result is Ok,
    {
        Ok(self.registration_id)
    }

    fn save_identity(
        &mut self,
        address: &ProtocolAddress,
        identity: &IdentityKey,
        ctx: Option<Context>,
    ) -> (result: Result<bool, StoreError>)
        ensures
            result is Ok,
    {
        let replaced = match self.known_keys.get(address) {
            Some(known) => !(*known == *identity),
            None => false,
        };
        self.known_keys.put(address.clone(), identity.clone());
        Ok(replaced)
    }

    fn is_trusted_identity(
        &self,
        address: &ProtocolAddress,
        identity: &IdentityKey,
        direction: Direction,
        ctx: Option<Context>,
    ) -> (result: Result<bool, StoreError>)
        ensures
            result is Ok,
    {
        match self.known_keys.get(address) {
            Some(known) => Ok(*known == *identity),
            None => Ok(true),
        }
    }

    fn get_identity(&self, address: &ProtocolAddress, ctx: Option<Context>) -> (result: Result<
        Option<IdentityKey>,
        StoreError,
    >)
        ensures
            result is Ok,
    {
        match self.known_keys.get(address) {
            Some(known) => Ok(Some(known.clone())),
            None => Ok(None),
        }
    }
}

/// A pre-key store in memory.
pub struct InMemPreKeyStore {
    records: HashMap<PreKeyId, PreKeyRecord>,
}

impl InMemPreKeyStore {
    /// The store with an empty pool.
    pub fn new() -> (store: Self)
        ensures
            store.pre_keys() == Map::<PreKeyId, PreKeyRecordView>::empty(),
    {
        let store = InMemPreKeyStore { records: HashMap::new() };
        assert(store.pre_keys() =~= Map::<PreKeyId, PreKeyRecordView>::empty());
        store
    }
}

impl PreKeyStore for InMemPreKeyStore {
    closed spec fn pre_keys(&self) -> Map<PreKeyId, PreKeyRecordView> {
        self.records@.map_values(|record: PreKeyRecord| record@)
    }

    fn get_pre_key(&self, prekey_id: PreKeyId, ctx: Option<Context>) -> (result: Result<
        PreKeyRecord,
        StoreError,
    >)
        ensures
            result is Ok <==> self.pre_keys().contains_key(prekey_id),
            result is Err ==> result == Err::<PreKeyRecord, StoreError>(StoreError::InvalidPreKeyId),
    {
        match self.records.get(&prekey_id) {
            Some(record) => Ok(record.clone()),
            None => Err(StoreError::InvalidPreKeyId),
        }
    }

    fn save_pre_key(&mut self, prekey_id: PreKeyId, record: &PreKeyRecord, ctx: Option<Context>) -> (result:
        Result<(), StoreError>)
        ensures
            result is Ok,
    {
        self.records.insert(prekey_id, record.clone());
        assert(self.pre_keys() =~= old(self).pre_keys().insert(prekey_id, record@));
        Ok(())
    }

    fn remove_pre_key(&mut self, prekey_id: PreKeyId, ctx: Option<Context>) -> (result: Result<
        (),
        StoreError,
    >)
        ensures
            result is Ok,
    {
        self.records.remove(&prekey_id);
        assert(self.pre_keys() =~= old(self).pre_keys().remove(prekey_id));
        Ok(())
    }
}

/// A signed pre-key store in memory.
pub struct InMemSignedPreKeyStore {
    records: HashMap<SignedPreKeyId, SignedPreKeyRecord>,
}

impl InMemSignedPreKeyStore {
    /// The store that holds no signed pre-key.
    pub fn new() -> (store: Self)
        ensures
            store.signed_pre_keys() == Map::<SignedPreKeyId, SignedPreKeyRecordView>::empty(),
    {
        let store = InMemSignedPreKeyStore { records: HashMap::new() };
        assert(store.signed_pre_keys() =~= Map::<SignedPreKeyId, SignedPreKeyRecordView>::empty());
        store
    }
}

impl SignedPreKeyStore for InMemSignedPreKeyStore {
    closed spec fn signed_pre_keys(&self) -> Map<SignedPreKeyId, SignedPreKeyRecordView> {
        self.records@.map_values(|record: SignedPreKeyRecord| record@)
    }

    fn get_signed_pre_key(&self, signed_prekey_id: SignedPreKeyId, ctx: Option<Context>) -> (result:
        Result<SignedPreKeyRecord, StoreError>)
        ensures
            result is Ok <==> self.signed_pre_keys().contains_key(signed_prekey_id),
            result is Err ==> result == Err::<SignedPreKeyRecord, StoreError>(
                StoreError::InvalidSignedPreKeyId,
            ),
    {
        match self.records.get(&signed_prekey_id) {
            Some(record) => Ok(record.clone()),
            None => Err(StoreError::InvalidSignedPreKeyId),
        }
    }

    fn save_signed_pre_key(
        &mut self,
        signed_prekey_id: SignedPreKeyId,
        record: &SignedPreKeyRecord,
        ctx: Option<Context>,
    ) -> (result: Result<(), StoreError>)
        ensures
            result is Ok,
    {
        self.records.insert(signed_prekey_id, record.clone());
        assert(self.signed_pre_keys() =~= old(self).signed_pre_keys().insert(
            signed_prekey_id,
            record@,
        ));
        Ok(())
    }
}

/// A session store in memory.
pub struct InMemSessionStore {
    sessions: Table<ProtocolAddress, SessionRecord>,
}

impl InMemSessionStore {
    /// The store that holds no session.
    pub fn new() -> (store: Self)
        ensures
            store.sessions() == Map::<AddressView, Seq<u8>>::empty(),
    {
        InMemSessionStore { sessions: Table::new() }
    }
}

impl SessionStore for InMemSessionStore {
    closed spec fn sessions(&self) -> Map<AddressView, Seq<u8>> {
        self.sessions@
    }

    fn load_session(&self, address: &ProtocolAddress, ctx: Option<Context>) -> (result: Result<
        Option<SessionRecord>,
        StoreError,
    >)
        ensures
            result is Ok,
    {
        match self.sessions.get(address) {
            Some(record) => Ok(Some(record.clone())),
            None => Ok(None),
        }
    }

    fn store_session(
        &mut self,
        address: &ProtocolAddress,
        record: &SessionRecord,
        ctx: Option<Context>,
    ) -> (result: Result<(), StoreError>)
        ensures
            result is Ok,
    {
        self.sessions.put(address.clone(), record.clone());
        Ok(())
    }
}

/// A sender-key store in memory.
pub struct InMemSenderKeyStore {
    keys: Table<SenderKeyName, SenderKeyRecord>,
}

impl InMemSenderKeyStore {
    /// The store that holds no sender key.
    pub fn new() -> (store: Self)
        ensures
            store.sender_keys() == Map::<(AddressView, Uuid), Seq<u8>>::empty(),
    {
        InMemSenderKeyStore { keys: Table::new() }
    }
}

impl SenderKeyStore for InMemSenderKeyStore {
    closed spec fn sender_keys(&self) -> Map<(AddressView, Uuid), Seq<u8>> {
        self.keys@
    }

    fn store_sender_key(
        &mut self,
        sender: &ProtocolAddress,
        distribution_id: Uuid,
        record: &SenderKeyRecord,
        ctx: Option<Context>,
    ) -> (result: Result<(), StoreError>)
        ensures
            result is Ok,
    {
        self.keys.put(SenderKeyName::new(sender.clone(), distribution_id), record.clone());
        Ok(())
    }

    fn load_sender_key(
        &mut self,
        sender: &ProtocolAddress,
        distribution_id: Uuid,
        ctx: Option<Context>,
    ) -> (result: Result<Option<SenderKeyRecord>, StoreError>)
        ensures
            result is Ok,
    {
        let name = SenderKeyName::new(sender.clone(), distribution_id);
        match self.keys.get(&name) {
            Some(record) => Ok(Some(record.clone())),
            None => Ok(None),
        }
    }
}

/// The four stores that one-to-one sessions need, held side by side.
///
/// Every call goes to the store that owns the state it names and leaves the
/// other three untouched.
pub struct InMemProtocolStore {
    session_store: InMemSessionStore,
    pre_key_store: InMemPreKeyStore,
    signed_pre_key_store: InMemSignedPreKeyStore,
    identity_store: InMemIdentityKeyStore,
}

/// Everything an [`InMemProtocolStore`] holds.
pub struct ProtocolState {
    pub identity_key_pair: IdentityKeyPairView,
    pub local_registration_id: u32,
    pub identities: Map<AddressView, Seq<u8>>,
    pub sessions: Map<AddressView, Seq<u8>>,
    pub pre_keys: Map<PreKeyId, PreKeyRecordView>,
    pub signed_pre_keys: Map<SignedPreKeyId, SignedPreKeyRecordView>,
}

impl View for InMemProtocolStore {
    type V = ProtocolState;

    closed spec fn view(&self) -> ProtocolState {
        ProtocolState {
            identity_key_pair: self.identity_store.identity_key_pair(),
            local_registration_id: self.identity_store.local_registration_id(),
            identities: self.identity_store.identities(),
            sessions: self.session_store.sessions(),
            pre_keys: self.pre_key_store.pre_keys(),
            signed_pre_keys: self.signed_pre_key_store.signed_pre_keys(),
        }
    }
}

impl InMemProtocolStore {
    /// The stores of an account with the given key pair and registration id,
    /// all of them empty.
    pub fn new(key_pair: IdentityKeyPair, registration_id: u32) -> (store: Self)
        ensures
            store@ == (ProtocolState {
                identity_key_pair: key_pair@,
                local_registration_id: registration_id,
                identities: Map::empty(),
                sessions: Map::empty(),
                pre_keys: Map::empty(),
                signed_pre_keys: Map::empty(),
            }),
    {
        InMemProtocolStore {
            session_store: InMemSessionStore::new(),
            pre_key_store: InMemPreKeyStore::new(),
            signed_pre_key_store: InMemSignedPreKeyStore::new(),
            identity_store: InMemIdentityKeyStore::new(key_pair, registration_id),
        }
    }
}

impl IdentityKeyStore for InMemProtocolStore {
    open spec fn identity_key_pair(&self) -> IdentityKeyPairView {
        self@.identity_key_pair
    }

    open spec fn local_registration_id(&self) -> u32 {
        self@.local_registration_id
    }

    open spec fn identities(&self) -> Map<AddressView, Seq<u8>> {
        self@.identities
    }

    fn get_identity_key_pair(&self, ctx: Option<Context>) -> (result: Result<
        IdentityKeyPair,
        StoreError,
    >)
        ensures
            result is Ok,
    {
        self.identity_store.get_identity_key_pair(ctx)
    }

    fn get_local_registration_id(&self, ctx: Option<Context>) -> (result: Result<u32, StoreError>)
        ensures
            result is Ok,
    {
        self.identity_store.get_local_registration_id(ctx)
    }

    fn save_identity(
        &mut self,
        address: &ProtocolAddress,
        identity: &IdentityKey,
        ctx: Option<Context>,
    ) -> (result: Result<bool, StoreError>)
        ensures
            result is Ok,
            final(self)@ == (ProtocolState { identities: final(self)@.identities, ..old(self)@ }),
    {
        self.identity_store.save_identity(address, identity, ctx)
    }

    fn is_trusted_identity(
        &self,
        address: &ProtocolAddress,
        identity: &IdentityKey,
        direction: Direction,
        ctx: Option<Context>,
    ) -> (result: Result<bool, StoreError>)
        ensures
            result is Ok,
    {
        self.identity_store.is_trusted_identity(address, identity, direction, ctx)
    }

    fn get_identity(&self, address: &ProtocolAddress, ctx: Option<Context>) -> (result: Result<
        Option<IdentityKey>,
        StoreError,
    >)
        ensures
            result is Ok,
    {
        self.identity_store.get_identity(address, ctx)
    }
}

impl PreKeyStore for InMemProtocolStore {
    open spec fn pre_keys(&self) -> Map<PreKeyId, PreKeyRecordView> {
        self@.pre_keys
    }

    fn get_pre_key(&self, prekey_id: PreKeyId, ctx: Option<Context>) -> (result: Result<
        PreKeyRecord,
        StoreError,
    >)
        ensures
            result is Ok <==> self.pre_keys().contains_key(prekey_id),
            result is Err ==> result == Err::<PreKeyRecord, StoreError>(StoreError::InvalidPreKeyId),
    {
        self.pre_key_store.get_pre_key(prekey_id, ctx)
    }

    fn save_pre_key(&mut self, prekey_id: PreKeyId, record: &PreKeyRecord, ctx: Option<Context>) -> (result:
        Result<(), StoreError>)
        ensures
            result is Ok,
            final(self)@ == (ProtocolState { pre_keys: final(self)@.pre_keys, ..old(self)@ }),
    {
        self.pre_key_store.save_pre_key(prekey_id, record, ctx)
    }

    fn remove_pre_key(&mut self, prekey_id: PreKeyId, ctx: Option<Context>) -> (result: Result<
        (),
        StoreError,
    >)
        ensures
            result is Ok,
            final(self)@ == (ProtocolState { pre_keys: final(self)@.pre_keys, ..old(self)@ }),
    {
        self.pre_key_store.remove_pre_key(prekey_id, ctx)
    }
}

impl SignedPreKeyStore for InMemProtocolStore {
    open spec fn signed_pre_keys(&self) -> Map<SignedPreKeyId, SignedPreKeyRecordView> {
        self@.signed_pre_keys
    }

    fn get_signed_pre_key(&self, signed_prekey_id: SignedPreKeyId, ctx: Option<Context>) -> (result:
        Result<SignedPreKeyRecord, StoreError>)
        ensures
            result is Ok <==> self.signed_pre_keys().contains_key(signed_prekey_id),
            result is Err ==> result == Err::<SignedPreKeyRecord, StoreError>(
                StoreError::InvalidSignedPreKeyId,
            ),
    {
        self.signed_pre_key_store.get_signed_pre_key(signed_prekey_id, ctx)
    }

    fn save_signed_pre_key(
        &mut self,
        signed_prekey_id: SignedPreKeyId,
        record: &SignedPreKeyRecord,
        ctx: Option<Context>,
    ) -> (result: Result<(), StoreError>)
        ensures
            result is Ok,
            final(self)@ == (ProtocolState { signed_pre_keys: final(self)@.signed_pre_keys, ..old(self)@ }),
    {
        self.signed_pre_key_store.save_signed_pre_key(signed_prekey_id, record, ctx)
    }
}

impl SessionStore for InMemProtocolStore {
    open spec fn sessions(&self) -> Map<AddressView, Seq<u8>> {
        self@.sessions
    }

    fn load_session(&self, address: &ProtocolAddress, ctx: Option<Context>) -> (result: Result<
        Option<SessionRecord>,
        StoreError,
    >)
        ensures
            result is Ok,
    {
        self.session_store.load_session(address, ctx)
    }

    fn store_session(
        &mut self,
        address: &ProtocolAddress,
        record: &SessionRecord,
        ctx: Option<Context>,
    ) -> (result: Result<(), StoreError>)
        ensures
            result is Ok,
            final(self)@ == (ProtocolState { sessions: final(self)@.sessions, ..old(self)@ }),
    {
        self.session_store.store_session(address, record, ctx)
    }
}

impl ProtocolStore for InMemProtocolStore {

}

} // verus!
