use protocol_store::memory::{InMemProtocolStore, InMemSessionStore};
use protocol_store::{
    IdentityKey, IdentityKeyPair, PreKeyRecord, PreKeyStore, ProtocolAddress, SessionRecord,
    SessionStore, StoreError,
};

fn advance<S: SessionStore>(store: &mut S, address: &ProtocolAddress) -> Result<(), StoreError> {
    let next = match store.load_session(address, None)? {
        Some(record) => {
            let mut state = record.state().clone();
            state.push(1);
            SessionRecord::new(state)
        }
        None => SessionRecord::new(vec![0]),
    };
    store.store_session(address, &next, None)
}

fn consume<S: PreKeyStore>(store: &mut S, id: u32) -> Result<PreKeyRecord, StoreError> {
    let record = store.get_pre_key(id, None)?;
    store.remove_pre_key(id, None)?;
    Ok(record)
}

#[test]
fn a_caller_written_against_the_session_role_reads_its_own_writes() {
    let mut store = InMemSessionStore::new();
    let alice = ProtocolAddress::new("alice".to_string(), 1);
    assert_eq!(advance(&mut store, &alice), Ok(()));
    assert_eq!(advance(&mut store, &alice), Ok(()));
    assert_eq!(advance(&mut store, &alice), Ok(()));
    assert_eq!(store.load_session(&alice, None), Ok(Some(SessionRecord::new(vec![0, 1, 1]))));
}

#[test]
fn a_caller_written_against_the_pre_key_role_consumes_a_key_once() {
    let pair = IdentityKeyPair::new(IdentityKey::new(vec![1]), vec![2]);
    let mut store = InMemProtocolStore::new(pair, 1);
    store.save_pre_key(4, &PreKeyRecord::new(4, vec![1], vec![2]), None).unwrap();
    assert_eq!(consume(&mut store, 4), Ok(PreKeyRecord::new(4, vec![1], vec![2])));
    assert_eq!(consume(&mut store, 4).err(), Some(StoreError::InvalidPreKeyId));
    assert_eq!(consume(&mut store, 5).err(), Some(StoreError::InvalidPreKeyId));
}
