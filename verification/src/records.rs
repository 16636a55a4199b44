//! The records the stores hold.

use vstd::prelude::*;
use vstd::std_specs::cmp::PartialEqSpecImpl;

verus! {

/// The id of a one-time pre-key, assigned when the key is generated.
pub type PreKeyId = u32;

/// The id of a signed pre-key, assigned when the key is generated.
pub type SignedPreKeyId = u32;

/// A one-time key pair and its id.
///
/// Pre-keys are made in bulk and their public halves published. The first
/// remote party to establish a session with one consumes it.
#[derive(Debug, Eq)]
pub struct PreKeyRecord {
    id: PreKeyId,
    public_key: Vec<u8>,
    private_key: Vec<u8>,
}

/// The mathematical value of a [`PreKeyRecord`].
pub struct PreKeyRecordView {
    pub id: PreKeyId,
    pub public_key: Seq<u8>,
    pub private_key: Seq<u8>,
}

impl View for PreKeyRecord {
    type V = PreKeyRecordView;

    closed spec fn view(&self) -> PreKeyRecordView {
        PreKeyRecordView {
            id: self.id,
            public_key: self.public_key@,
            private_key: self.private_key@,
        }
    }
}

impl PreKeyRecord {
    /// The record of the key pair generated under `id`.
    pub fn new(id: PreKeyId, public_key: Vec<u8>, private_key: Vec<u8>) -> (record: Self)
        ensures
            record@ == (PreKeyRecordView {
                id,
                public_key: public_key@,
                private_key: private_key@,
            }),
    {
        PreKeyRecord { id, public_key, private_key }
    }

    /// The id the key was generated under.
    pub fn id(&self) -> (id: PreKeyId)
        ensures
            id == self@.id,
    {
        self.id
    }

    /// The encoded public half.
    pub fn public_key(&self) -> (bytes: &Vec<u8>)
        ensures
            bytes@ == self@.public_key,
    {
        &self.public_key
    }

    /// The encoded private half.
    pub fn private_key(&self) -> (bytes: &Vec<u8>)
        ensures
            bytes@ == self@.private_key,
    {
        &self.private_key
    }
}

impl PartialEq for PreKeyRecord {
    fn eq(&self, other: &Self) -> (same: bool) {
        let same_public = self.public_key == other.public_key;
        let same_private = self.private_key == other.private_key;
        assert(same_public == (self.public_key@ =~= other.public_key@));
        assert(same_private == (self.private_key@ =~= other.private_key@));
        self.id == other.id && same_public && same_private
    }
}

impl PartialEqSpecImpl for PreKeyRecord {
    open spec fn obeys_eq_spec() -> bool {
        true
    }

    open spec fn eq_spec(&self, other: &Self) -> bool {
        self@ == other@
    }
}

impl Clone for PreKeyRecord {
    fn clone(&self) -> (copy: Self)
        ensures
            copy@ == self@,
    {
        PreKeyRecord {
            id: self.id,
            public_key: self.public_key.clone(),
            private_key: self.private_key.clone(),
        }
    }
}

/// A medium-term key pair, its id, and the signature the identity key made
/// over its public half.
///
/// Signed pre-keys are rotated, not consumed: several sessions may be
/// established against the same one.
#[derive(Debug, Eq)]
pub struct SignedPreKeyRecord {
    id: SignedPreKeyId,
    public_key: Vec<u8>,
    private_key: Vec<u8>,
    signature: Vec<u8>,
}

/// The mathematical value of a [`SignedPreKeyRecord`].
pub struct SignedPreKeyRecordView {
    pub id: SignedPreKeyId,
    pub public_key: Seq<u8>,
    pub private_key: Seq<u8>,
    pub signature: Seq<u8>,
}

impl View for SignedPreKeyRecord {
    type V = SignedPreKeyRecordView;

    closed spec fn view(&self) -> SignedPreKeyRecordView {
        SignedPreKeyRecordView {
            id: self.id,
            public_key: self.public_key@,
            private_key: self.private_key@,
            signature: self.signature@,
        }
    }
}

impl SignedPreKeyRecord {
    /// The record of the key pair generated under `id`, with the signature
    /// over its public half.
    pub fn new(
        id: SignedPreKeyId,
        public_key: Vec<u8>,
        private_key: Vec<u8>,
        signature: Vec<u8>,
    ) -> (record: Self)
        ensures
            record@ == (SignedPreKeyRecordView {
                id,
                public_key: public_key@,
                private_key: private_key@,
                signature: signature@,
            }),
    {
        SignedPreKeyRecord { id, public_key, private_key, signature }
    }

    /// The id the key was generated under.
    pub fn id(&self) -> (id: SignedPreKeyId)
        ensures
            id == self@.id,
    {
        self.id
    }

    /// The encoded public half.
    pub fn public_key(&self) -> (bytes: &Vec<u8>)
        ensures
            bytes@ == self@.public_key,
    {
        &self.public_key
    }

    /// The encoded private half.
    pub fn private_key(&self) -> (bytes: &Vec<u8>)
        ensures
            bytes@ == self@.private_key,
    {
        &self.private_key
    }

    /// The identity key's signature over the public half.
    pub fn signature(&self) -> (bytes: &Vec<u8>)
        ensures
            bytes@ == self@.signature,
    {
        &self.signature
    }
}

impl PartialEq for SignedPreKeyRecord {
    fn eq(&self, other: &Self) -> (same: bool) {
        let same_public = self.public_key == other.public_key;
        let same_private = self.private_key == other.private_key;
        let same_signature = self.signature == other.signature;
        assert(same_public == (self.public_key@ =~= other.public_key@));
        assert(same_private == (self.private_key@ =~= other.private_key@));
        assert(same_signature == (self.signature@ =~= other.signature@));
        self.id == other.id && same_public && same_private && same_signature
    }
}

impl PartialEqSpecImpl for SignedPreKeyRecord {
    open spec fn obeys_eq_spec() -> bool {
        true
    }

    open spec fn eq_spec(&self, other: &Self) -> bool {
        self@ == other@
    }
}

impl Clone for SignedPreKeyRecord {
    fn clone(&self) -> (copy: Self)
        ensures
            copy@ == self@,
    {
        SignedPreKeyRecord {
            id: self.id,
            public_key: self.public_key.clone(),
            private_key: self.private_key.clone(),
            signature: self.signature.clone(),
        }
    }
}

/// The ratchet state held for one remote address, in the encoding the
/// ratchet engine gives it.
///
/// The store keeps the state and hands it back unchanged; it never reads it.
#[derive(Debug, Eq)]
pub struct SessionRecord {
    state: Vec<u8>,
}

impl View for SessionRecord {
    type V = Seq<u8>;

    closed spec fn view(&self) -> Seq<u8> {
        self.state@
    }
}

impl SessionRecord {
    /// The record holding the given encoded state.
    pub fn new(state: Vec<u8>) -> (record: Self)
        ensures
            record@ == state@,
    {
        SessionRecord { state }
    }

    /// The encoded state.
    pub fn state(&self) -> (bytes: &Vec<u8>)
        ensures
            bytes@ == self@,
    {
        &self.state
    }
}

impl PartialEq for SessionRecord {
    fn eq(&self, other: &Self) -> (same: bool) {
        let same = self.state == other.state;
        assert(same == (self.state@ =~= other.state@));
        same
    }
}

impl PartialEqSpecImpl for SessionRecord {
    open spec fn obeys_eq_spec() -> bool {
        true
    }

    open spec fn eq_spec(&self, other: &Self) -> bool {
        self@ == other@
    }
}

impl Clone for SessionRecord {
    fn clone(&self) -> (copy: Self)
        ensures
            copy@ == self@,
    {
        SessionRecord { state: self.state.clone() }
    }
}

/// A sender's group-key state for one distribution, in the encoding the
/// group cipher gives it.
///
/// The store keeps the state and hands it back unchanged; it never reads it.
#[derive(Debug, Eq)]
pub struct SenderKeyRecord {
    state: Vec<u8>,
}

impl View for SenderKeyRecord {
    type V = Seq<u8>;

    closed spec fn view(&self) -> Seq<u8> {
        self.state@
    }
}

impl SenderKeyRecord {
    /// The record holding the given encoded state.
    pub fn new(state: Vec<u8>) -> (record: Self)
        ensures
            record@ == state@,
    {
        SenderKeyRecord { state }
    }

    /// The encoded state.
    pub fn state(&self) -> (bytes: &Vec<u8>)
        ensures
            bytes@ == self@,
    {
        &self.state
    }
}

impl PartialEq for SenderKeyRecord {
    fn eq(&self, other: &Self) -> (same: bool) {
        let same = self.state == other.state;
        assert(same == (self.state@ =~= other.state@));
        same
    }
}

impl PartialEqSpecImpl for SenderKeyRecord {
    open spec fn obeys_eq_spec() -> bool {
        true
    }

    open spec fn eq_spec(&self, other: &Self) -> bool {
        self@ == other@
    }
}

impl Clone for SenderKeyRecord {
    fn clone(&self) -> (copy: Self)
        ensures
            copy@ == self@,
    {
        SenderKeyRecord { state: self.state.clone() }
    }
}

} // verus!
