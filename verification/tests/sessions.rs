use protocol_store::memory::InMemSessionStore;
use protocol_store::{Context, ProtocolAddress, SessionRecord, SessionStore};

fn address(name: &str, device_id: u32) -> ProtocolAddress {
    ProtocolAddress::new(name.to_string(), device_id)
}

fn session(seed: u8) -> SessionRecord {
    SessionRecord::new(vec![seed, 0, 1, 2, 3, seed])
}

#[test]
fn stored_session_is_loaded_back() {
    let mut store = InMemSessionStore::new();
    let alice = address("alice", 1);
    assert_eq!(store.store_session(&alice, &session(1), None), Ok(()));
    assert_eq!(store.load_session(&alice, None), Ok(Some(session(1))));
    assert_eq!(store.load_session(&alice, None), Ok(Some(session(1))));
}

#[test]
fn address_never_stored_has_no_session() {
    let mut store = InMemSessionStore::new();
    assert_eq!(store.load_session(&address("alice", 1), None), Ok(None));
    store.store_session(&address("bob", 1), &session(1), None).unwrap();
    store.store_session(&address("alice", 2), &session(2), None).unwrap();
    store.store_session(&address("alic", 1), &session(3), None).unwrap();
    store.store_session(&address("alicee", 1), &session(4), None).unwrap();
    assert_eq!(store.load_session(&address("alice", 1), None), Ok(None));
}

#[test]
fn storing_a_session_replaces_the_one_held() {
    let mut store = InMemSessionStore::new();
    let alice = address("alice", 1);
    store.store_session(&alice, &session(1), None).unwrap();
    store.store_session(&alice, &session(2), None).unwrap();
    assert_eq!(store.load_session(&alice, None), Ok(Some(session(2))));
}

#[test]
fn each_device_has_a_session_of_its_own() {
    let mut store = InMemSessionStore::new();
    store.store_session(&address("alice", 1), &session(1), None).unwrap();
    store.store_session(&address("alice", 2), &session(2), None).unwrap();
    store.store_session(&address("bob", 1), &session(3), None).unwrap();
    assert_eq!(store.load_session(&address("alice", 1), None), Ok(Some(session(1))));
    assert_eq!(store.load_session(&address("alice", 2), None), Ok(Some(session(2))));
    assert_eq!(store.load_session(&address("bob", 1), None), Ok(Some(session(3))));
    assert_eq!(store.load_session(&address("bob", 2), None), Ok(None));
}

#[test]
fn replacing_one_session_among_many_leaves_the_others() {
    let mut store = InMemSessionStore::new();
    for device in 0..40u32 {
        store.store_session(&address("carol", device), &session(device as u8), None).unwrap();
    }
    store.store_session(&address("carol", 17), &session(200), None).unwrap();
    store.store_session(&address("carol", 0), &session(201), None).unwrap();
    store.store_session(&address("carol", 39), &session(202), None).unwrap();
    for device in 0..40u32 {
        let expected = match device {
            17 => session(200),
            0 => session(201),
            39 => session(202),
            other => session(other as u8),
        };
        assert_eq!(store.load_session(&address("carol", device), None), Ok(Some(expected)));
    }
    assert_eq!(store.load_session(&address("carol", 40), None), Ok(None));
}

#[test]
fn empty_name_and_empty_state_are_ordinary_values() {
    let mut store = InMemSessionStore::new();
    let nameless = address("", 0);
    assert_eq!(store.load_session(&nameless, None), Ok(None));
    store.store_session(&nameless, &SessionRecord::new(vec![]), None).unwrap();
    assert_eq!(store.load_session(&nameless, None), Ok(Some(SessionRecord::new(vec![]))));
    assert_eq!(store.load_session(&address("", 1), None), Ok(None));
}

#[test]
fn session_calls_accept_a_context() {
    let ctx = Some(Context::new(3));
    let mut store = InMemSessionStore::new();
    let alice = address("alice", 1);
    assert_eq!(store.load_session(&alice, ctx), Ok(None));
    assert_eq!(store.store_session(&alice, &session(1), ctx), Ok(()));
    assert_eq!(store.load_session(&alice, ctx), Ok(Some(session(1))));
}
