//! Store contracts for a secure messaging protocol: the durable state that
//! session establishment and message ratcheting depend on, and the rules a
//! storage backend has to keep.
//!
//! The protocol core is stateless; everything that must survive a restart
//! lives behind five narrow store roles. Each role is a trait whose methods
//! carry their contract over a mathematical model of the stored state, so a
//! backend that verifies against the trait is known to keep the rules, and
//! code written against the trait can rely on them.

pub mod address;
pub mod context;
pub mod distribution;
pub mod error;
pub mod keys;
pub mod laws;
pub mod memory;
pub mod records;
pub mod store;
pub mod table;

pub use address::{AddressView, ProtocolAddress};
pub use context::{Context, Direction};
pub use error::StoreError;
pub use keys::{IdentityKey, IdentityKeyPair, IdentityKeyPairView};
pub use records::{
    PreKeyId, PreKeyRecord, PreKeyRecordView, SenderKeyRecord, SessionRecord, SignedPreKeyId,
    SignedPreKeyRecord, SignedPreKeyRecordView,
};
pub use store::{
    IdentityKeyStore, PreKeyStore, ProtocolStore, SenderKeyStore, SessionStore, SignedPreKeyStore,
};
