use account_ledger::store::{AccountStore, StoreError};

#[test]
fn store_insert_get_remove() {
    let mut store: AccountStore<u32> = AccountStore::new();
    assert!(!store.contains(1));
    assert_eq!(store.get(1), None);
    store.insert(1, 10);
    store.insert(1, 11);
    assert_eq!(store.get(1), Some(&11));
    assert_eq!(store.remove(1), Some(11));
    assert_eq!(store.remove(1), None);
    assert!(!store.contains(1));
}

#[test]
fn store_mutate_needs_an_existing_key() {
    let mut store: AccountStore<u32> = AccountStore::new();
    assert_eq!(store.mutate(4, |v| v + 1), Err(StoreError::MissingKey));
    assert!(!store.contains(4));
    store.insert(4, 41);
    assert_eq!(store.mutate(4, |v| v + 1), Ok(()));
    assert_eq!(store.get(4), Some(&42));
}
