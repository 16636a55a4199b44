use protocol_store::{
    Context, Direction, IdentityKey, IdentityKeyPair, PreKeyRecord, ProtocolAddress,
    SenderKeyRecord, SessionRecord, SignedPreKeyRecord, StoreError,
};

#[test]
fn context_keeps_its_handle() {
    assert_eq!(Context::new(0).handle(), 0);
    assert_eq!(Context::new(0xdead_beef).handle(), 0xdead_beef);
    assert_eq!(Context::new(usize::MAX).handle(), usize::MAX);
    assert_eq!(Context::new(5), Context::new(5));
    assert_ne!(Context::new(5), Context::new(6));
}

#[test]
fn context_is_copied_freely() {
    let ctx = Context::new(12);
    let copy = ctx;
    assert_eq!(ctx, copy);
    assert_eq!(copy.handle(), 12);
}

#[test]
fn directions_are_told_apart() {
    assert_eq!(Direction::Sending, Direction::Sending);
    assert_eq!(Direction::Receiving, Direction::Receiving);
    assert_ne!(Direction::Sending, Direction::Receiving);
    assert_eq!(format!("{:?}", Direction::Sending), "Sending");
    assert_eq!(format!("{:?}", Direction::Receiving), "Receiving");
}

#[test]
fn errors_are_told_apart() {
    assert_ne!(StoreError::InvalidPreKeyId, StoreError::InvalidSignedPreKeyId);
    assert_ne!(StoreError::InvalidPreKeyId, StoreError::StorageFault);
    assert_ne!(StoreError::InvalidSignedPreKeyId, StoreError::StorageFault);
    assert_eq!(StoreError::StorageFault, StoreError::StorageFault);
}

#[test]
fn address_keeps_its_parts() {
    let address = ProtocolAddress::new("alice".to_string(), 3);
    assert_eq!(address.name(), "alice");
    assert_eq!(address.device_id(), 3);
}

#[test]
fn addresses_are_equal_when_both_parts_are() {
    let address = ProtocolAddress::new("alice".to_string(), 3);
    assert_eq!(address, ProtocolAddress::new("alice".to_string(), 3));
    assert_ne!(address, ProtocolAddress::new("alice".to_string(), 4));
    assert_ne!(address, ProtocolAddress::new("Alice".to_string(), 3));
    assert_ne!(address, ProtocolAddress::new("alic".to_string(), 3));
    assert_ne!(address, ProtocolAddress::new("".to_string(), 3));
    assert_eq!(address.clone(), address);
}

#[test]
fn identity_key_is_its_bytes() {
    let key = IdentityKey::new(vec![5, 6, 7]);
    assert_eq!(key.public_key(), &vec![5, 6, 7]);
    assert_eq!(key, IdentityKey::new(vec![5, 6, 7]));
    assert_ne!(key, IdentityKey::new(vec![5, 6, 8]));
    assert_ne!(key, IdentityKey::new(vec![5, 6]));
    assert_eq!(key.clone(), key);
}

#[test]
fn identity_key_pair_keeps_both_halves() {
    let pair = IdentityKeyPair::new(IdentityKey::new(vec![1, 2]), vec![3, 4]);
    assert_eq!(pair.identity_key(), &IdentityKey::new(vec![1, 2]));
    assert_eq!(pair.private_key(), &vec![3, 4]);
    assert_eq!(pair.clone(), pair);
    assert_ne!(pair, IdentityKeyPair::new(IdentityKey::new(vec![1, 2]), vec![3, 5]));
    assert_ne!(pair, IdentityKeyPair::new(IdentityKey::new(vec![1, 3]), vec![3, 4]));
}

#[test]
fn pre_key_record_keeps_its_parts() {
    let record = PreKeyRecord::new(11, vec![1, 2], vec![3, 4]);
    assert_eq!(record.id(), 11);
    assert_eq!(record.public_key(), &vec![1, 2]);
    assert_eq!(record.private_key(), &vec![3, 4]);
    assert_eq!(record.clone(), record);
    assert_ne!(record, PreKeyRecord::new(12, vec![1, 2], vec![3, 4]));
    assert_ne!(record, PreKeyRecord::new(11, vec![1, 3], vec![3, 4]));
    assert_ne!(record, PreKeyRecord::new(11, vec![1, 2], vec![3]));
}

#[test]
fn signed_pre_key_record_keeps_its_parts() {
    let record = SignedPreKeyRecord::new(11, vec![1, 2], vec![3, 4], vec![5, 6]);
    assert_eq!(record.id(), 11);
    assert_eq!(record.public_key(), &vec![1, 2]);
    assert_eq!(record.private_key(), &vec![3, 4]);
    assert_eq!(record.signature(), &vec![5, 6]);
    assert_eq!(record.clone(), record);
    assert_ne!(record, SignedPreKeyRecord::new(10, vec![1, 2], vec![3, 4], vec![5, 6]));
    assert_ne!(record, SignedPreKeyRecord::new(11, vec![2, 2], vec![3, 4], vec![5, 6]));
    assert_ne!(record, SignedPreKeyRecord::new(11, vec![1, 2], vec![4, 4], vec![5, 6]));
    assert_ne!(record, SignedPreKeyRecord::new(11, vec![1, 2], vec![3, 4], vec![5, 7]));
}

#[test]
fn session_and_sender_key_records_are_their_state() {
    let session = SessionRecord::new(vec![1, 2, 3]);
    assert_eq!(session.state(), &vec![1, 2, 3]);
    assert_eq!(session.clone(), session);
    assert_ne!(session, SessionRecord::new(vec![1, 2, 4]));
    let sender_key = SenderKeyRecord::new(vec![9, 8]);
    assert_eq!(sender_key.state(), &vec![9, 8]);
    assert_eq!(sender_key.clone(), sender_key);
    assert_ne!(sender_key, SenderKeyRecord::new(vec![9, 8, 7]));
}
