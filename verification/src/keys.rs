//! Long-term identity keys.

use vstd::prelude::*;
use vstd::std_specs::cmp::PartialEqSpecImpl;

verus! {

/// A participant's long-term public key.
///
/// The store never looks inside the key; it only tells two keys apart. The
/// value of a key is its encoded bytes.
#[derive(Debug, Eq)]
pub struct IdentityKey {
    public_key: Vec<u8>,
}

impl View for IdentityKey {
    type V = Seq<u8>;

    closed spec fn view(&self) -> Seq<u8> {
        self.public_key@
    }
}

impl IdentityKey {
    /// The identity key with the given encoding.
    pub fn new(public_key: Vec<u8>) -> (key: Self)
        ensures
            key@ == public_key@,
    {
        IdentityKey { public_key }
    }

    /// The encoded public key.
    pub fn public_key(&self) -> (bytes: &Vec<u8>)
        ensures
            bytes@ == self@,
    {
        &self.public_key
    }
}

impl PartialEq for IdentityKey {
    fn eq(&self, other: &Self) -> (same: bool) {
        let same = self.public_key == other.public_key;
        assert(same == (self.public_key@ =~= other.public_key@));
        same
    }
}

impl PartialEqSpecImpl for IdentityKey {
    open spec fn obeys_eq_spec() -> bool {
        true
    }

    open spec fn eq_spec(&self, other: &Self) -> bool {
        self@ == other@
    }
}

impl Clone for IdentityKey {
    fn clone(&self) -> (copy: Self)
        ensures
            copy@ == self@,
    {
        IdentityKey { public_key: self.public_key.clone() }
    }
}

/// The local account's identity: the private key and its public counterpart.
///
/// There is one per account. It is made at registration and read on every
/// send and receive.
#[derive(Debug, Eq)]
pub struct IdentityKeyPair {
    identity_key: IdentityKey,
    private_key: Vec<u8>,
}

/// The mathematical value of an [`IdentityKeyPair`].
pub struct IdentityKeyPairView {
    pub identity_key: Seq<u8>,
    pub private_key: Seq<u8>,
}

impl View for IdentityKeyPair {
    type V = IdentityKeyPairView;

    closed spec fn view(&self) -> IdentityKeyPairView {
        IdentityKeyPairView { identity_key: self.identity_key@, private_key: self.private_key@ }
    }
}

impl IdentityKeyPair {
    /// The pair of a public identity key and the private key that belongs to it.
    pub fn new(identity_key: IdentityKey, private_key: Vec<u8>) -> (pair: Self)
        ensures
            pair@ == (IdentityKeyPairView {
                identity_key: identity_key@,
                private_key: private_key@,
            }),
    {
        IdentityKeyPair { identity_key, private_key }
    }

    /// The public half.
    pub fn identity_key(&self) -> (key: &IdentityKey)
        ensures
            key@ == self@.identity_key,
    {
        &self.identity_key
    }

    /// The encoded private half.
    pub fn private_key(&self) -> (bytes: &Vec<u8>)
        ensures
            bytes@ == self@.private_key,
    {
        &self.private_key
    }
}

impl PartialEq for IdentityKeyPair {
    fn eq(&self, other: &Self) -> (same: bool) {
        let same_private = self.private_key == other.private_key;
        assert(same_private == (self.private_key@ =~= other.private_key@));
        self.identity_key == other.identity_key && same_private
    }
}

impl PartialEqSpecImpl for IdentityKeyPair {
    open spec fn obeys_eq_spec() -> bool {
        true
    }

    open spec fn eq_spec(&self, other: &Self) -> bool {
        self@ == other@
    }
}

impl Clone for IdentityKeyPair {
    fn clone(&self) -> (copy: Self)
        ensures
            copy@ == self@,
    {
        IdentityKeyPair {
            identity_key: self.identity_key.clone(),
            private_key: self.private_key.clone(),
        }
    }
}

} // verus!
