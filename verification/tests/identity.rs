use protocol_store::memory::InMemIdentityKeyStore;
use protocol_store::{
    Context, Direction, IdentityKey, IdentityKeyPair, IdentityKeyStore, ProtocolAddress,
};

fn address(name: &str, device_id: u32) -> ProtocolAddress {
    ProtocolAddress::new(name.to_string(), device_id)
}

fn key(seed: u8) -> IdentityKey {
    IdentityKey::new(vec![5, seed, seed, 7])
}

fn local_pair() -> IdentityKeyPair {
    IdentityKeyPair::new(IdentityKey::new(vec![5, 1, 1, 1]), vec![9, 9, 9])
}

fn store() -> InMemIdentityKeyStore {
    InMemIdentityKeyStore::new(local_pair(), 1234)
}

#[test]
fn local_identity_is_what_the_store_was_made_with() {
    let store = store();
    assert_eq!(store.get_identity_key_pair(None), Ok(local_pair()));
    assert_eq!(store.get_local_registration_id(None), Ok(1234));
}

#[test]
fn local_identity_is_stable_across_calls_and_saves() {
    let mut store = store();
    let before = store.get_identity_key_pair(None);
    store.save_identity(&address("alice", 1), &key(1), None).unwrap();
    store.save_identity(&address("alice", 1), &key(2), None).unwrap();
    store.save_identity(&address("bob", 1), &key(3), None).unwrap();
    assert_eq!(store.get_identity_key_pair(None), before);
    assert_eq!(store.get_identity_key_pair(None), Ok(local_pair()));
    assert_eq!(store.get_local_registration_id(None), Ok(1234));
    assert_eq!(store.get_local_registration_id(None), Ok(1234));
}

#[test]
fn unknown_address_trusts_any_key_in_both_directions() {
    let store = store();
    let alice = address("alice", 1);
    assert_eq!(store.is_trusted_identity(&alice, &key(1), Direction::Sending, None), Ok(true));
    assert_eq!(store.is_trusted_identity(&alice, &key(1), Direction::Receiving, None), Ok(true));
    assert_eq!(store.is_trusted_identity(&alice, &key(2), Direction::Sending, None), Ok(true));
    assert_eq!(store.is_trusted_identity(&alice, &key(2), Direction::Receiving, None), Ok(true));
}

#[test]
fn saved_identity_is_trusted_and_a_different_one_is_not() {
    let mut store = store();
    let alice = address("alice", 1);
    store.save_identity(&alice, &key(1), None).unwrap();
    assert_eq!(store.is_trusted_identity(&alice, &key(1), Direction::Sending, None), Ok(true));
    assert_eq!(store.is_trusted_identity(&alice, &key(1), Direction::Receiving, None), Ok(true));
    assert_eq!(store.is_trusted_identity(&alice, &key(2), Direction::Sending, None), Ok(false));
    assert_eq!(store.is_trusted_identity(&alice, &key(2), Direction::Receiving, None), Ok(false));
}

#[test]
fn trust_follows_the_latest_save() {
    let mut store = store();
    let alice = address("alice", 1);
    store.save_identity(&alice, &key(1), None).unwrap();
    store.save_identity(&alice, &key(2), None).unwrap();
    assert_eq!(store.is_trusted_identity(&alice, &key(2), Direction::Sending, None), Ok(true));
    assert_eq!(store.is_trusted_identity(&alice, &key(2), Direction::Receiving, None), Ok(true));
    assert_eq!(store.is_trusted_identity(&alice, &key(1), Direction::Sending, None), Ok(false));
    assert_eq!(store.is_trusted_identity(&alice, &key(1), Direction::Receiving, None), Ok(false));
}

#[test]
fn trust_is_kept_per_address() {
    let mut store = store();
    store.save_identity(&address("alice", 1), &key(1), None).unwrap();
    let other_device = address("alice", 2);
    let other_user = address("bob", 1);
    assert_eq!(store.is_trusted_identity(&other_device, &key(2), Direction::Sending, None), Ok(true));
    assert_eq!(store.is_trusted_identity(&other_user, &key(2), Direction::Sending, None), Ok(true));
    assert_eq!(store.get_identity(&other_device, None), Ok(None));
    assert_eq!(store.get_identity(&other_user, None), Ok(None));
}

#[test]
fn save_identity_reports_only_a_changed_key() {
    let mut store = store();
    let alice = address("alice", 1);
    assert_eq!(store.save_identity(&alice, &key(1), None), Ok(false));
    assert_eq!(store.save_identity(&alice, &key(1), None), Ok(false));
    assert_eq!(store.save_identity(&alice, &key(2), None), Ok(true));
    assert_eq!(store.save_identity(&alice, &key(2), None), Ok(false));
    assert_eq!(store.save_identity(&alice, &key(1), None), Ok(true));
    assert_eq!(store.save_identity(&address("bob", 1), &key(1), None), Ok(false));
}

#[test]
fn keys_that_differ_in_one_byte_or_in_length_are_different() {
    let mut store = store();
    let alice = address("alice", 1);
    store.save_identity(&alice, &IdentityKey::new(vec![1, 2, 3]), None).unwrap();
    let check = |bytes: Vec<u8>| {
        store.is_trusted_identity(&alice, &IdentityKey::new(bytes), Direction::Receiving, None)
    };
    assert_eq!(check(vec![1, 2, 3]), Ok(true));
    assert_eq!(check(vec![1, 2, 4]), Ok(false));
    assert_eq!(check(vec![1, 2]), Ok(false));
    assert_eq!(check(vec![1, 2, 3, 0]), Ok(false));
    assert_eq!(check(vec![]), Ok(false));
}

#[test]
fn get_identity_returns_the_key_on_record() {
    let mut store = store();
    let alice = address("alice", 1);
    assert_eq!(store.get_identity(&alice, None), Ok(None));
    store.save_identity(&alice, &key(1), None).unwrap();
    assert_eq!(store.get_identity(&alice, None), Ok(Some(key(1))));
    store.save_identity(&alice, &key(2), None).unwrap();
    assert_eq!(store.get_identity(&alice, None), Ok(Some(key(2))));
}

#[test]
fn identity_calls_accept_a_context() {
    let ctx = Some(Context::new(77));
    let mut store = store();
    let alice = address("alice", 1);
    assert_eq!(store.save_identity(&alice, &key(1), ctx), Ok(false));
    assert_eq!(store.is_trusted_identity(&alice, &key(1), Direction::Sending, ctx), Ok(true));
    assert_eq!(store.get_identity(&alice, ctx), Ok(Some(key(1))));
    assert_eq!(store.get_identity_key_pair(ctx), Ok(local_pair()));
    assert_eq!(store.get_local_registration_id(ctx), Ok(1234));
}
