use essential_wallet::store::DualStore;
use essential_wallet::store::SingleStore;
use essential_wallet::store::Store;
use essential_wallet::Error;
use essential_wallet::Scheme;

fn names_of(pairs: &[(String, Scheme)]) -> Vec<String> {
    pairs.iter().map(|(n, _)| n.clone()).collect()
}

#[test]
fn single_store_basics() {
    let mut s = SingleStore::new();
    s.set_secret("alice".to_string(), Scheme::Secp256k1, vec![1; 32]).unwrap();
    let (secret, scheme) = s.get_secret(&"alice".to_string()).unwrap();
    assert_eq!(secret, vec![1; 32]);
    assert_eq!(scheme, Scheme::Secp256k1);
    s.delete_secret(&"alice".to_string()).unwrap();
    assert_eq!(s.get_secret(&"alice".to_string()), Err(Error::NameNotFound));
}

#[test]
fn single_store_rejects_duplicates() {
    let mut s = SingleStore::new();
    s.set_secret("alice".to_string(), Scheme::Secp256k1, vec![1; 32]).unwrap();
    let second = s.set_secret("alice".to_string(), Scheme::Ed25519, vec![2; 32]);
    assert_eq!(second, Err(Error::NameAlreadyExists));
    // The original record is unmodified.
    let (secret, scheme) = s.get_secret(&"alice".to_string()).unwrap();
    assert_eq!(secret, vec![1; 32]);
    assert_eq!(scheme, Scheme::Secp256k1);
}

#[test]
fn single_store_delete_of_missing_name_fails() {
    let mut s = SingleStore::new();
    s.set_secret("alice".to_string(), Scheme::Secp256k1, vec![1; 32]).unwrap();
    assert_eq!(s.delete_secret(&"bob".to_string()), Err(Error::NameNotFound));
    // No side effect on the other entries.
    assert!(s.get_secret(&"alice".to_string()).is_ok());
    assert_eq!(s.list().len(), 1);
}

#[test]
fn dual_store_basics() {
    let mut d = DualStore::new();
    d.set_secret("alice".to_string(), Scheme::Secp256k1, vec![1; 32]).unwrap();
    let (secret, scheme) = d.get_secret(&"alice".to_string()).unwrap();
    assert_eq!(secret, vec![1; 32]);
    assert_eq!(scheme, Scheme::Secp256k1);
    d.delete_secret(&"alice".to_string()).unwrap();
    assert_eq!(d.get_secret(&"alice".to_string()), Err(Error::NameNotFound));
}

#[test]
fn dual_store_rejects_duplicates_and_keeps_the_original() {
    let mut d = DualStore::new();
    d.set_secret("alice".to_string(), Scheme::Secp256k1, vec![1; 32]).unwrap();
    let second = d.set_secret("alice".to_string(), Scheme::Secp256k1, vec![9; 32]);
    assert_eq!(second, Err(Error::NameAlreadyExists));
    let (secret, _) = d.get_secret(&"alice".to_string()).unwrap();
    assert_eq!(secret, vec![1; 32]);
}

#[test]
fn failed_secret_write_leaves_no_metadata() {
    let mut d = DualStore::new();
    d.set_secret("alice".to_string(), Scheme::Secp256k1, vec![1; 32]).unwrap();
    d.secrets.arm_write_failure();
    let r = d.set_secret("bob".to_string(), Scheme::Secp256k1, vec![2; 32]);
    assert_eq!(r, Err(Error::BackendIO));
    // The attempted name is in neither backend: a listing must not show it.
    let names = names_of(&d.list());
    assert_eq!(names, vec!["alice".to_string()]);
    assert_eq!(d.get_secret(&"bob".to_string()), Err(Error::NameNotFound));
    // The failure was consumed: the same create now succeeds.
    d.set_secret("bob".to_string(), Scheme::Secp256k1, vec![2; 32]).unwrap();
    assert_eq!(d.list().len(), 2);
}

#[test]
fn failed_metadata_write_changes_nothing() {
    let mut d = DualStore::new();
    d.meta.arm_write_failure();
    let r = d.set_secret("alice".to_string(), Scheme::Secp256k1, vec![1; 32]);
    assert_eq!(r, Err(Error::BackendIO));
    assert!(d.list().is_empty());
}

#[test]
fn failed_secret_delete_restores_the_record() {
    let mut d = DualStore::new();
    d.set_secret("carol".to_string(), Scheme::Secp256k1, vec![3; 32]).unwrap();
    d.secrets.arm_delete_failure();
    let r = d.delete_secret(&"carol".to_string());
    assert_eq!(r, Err(Error::BackendIO));
    // A subsequent read still succeeds and returns the original key.
    let (secret, scheme) = d.get_secret(&"carol".to_string()).unwrap();
    assert_eq!(secret, vec![3; 32]);
    assert_eq!(scheme, Scheme::Secp256k1);
    // The failure was consumed: the delete now goes through.
    d.delete_secret(&"carol".to_string()).unwrap();
    assert_eq!(d.get_secret(&"carol".to_string()), Err(Error::NameNotFound));
}

#[test]
fn failed_metadata_delete_changes_nothing() {
    let mut d = DualStore::new();
    d.set_secret("carol".to_string(), Scheme::Secp256k1, vec![3; 32]).unwrap();
    d.meta.arm_delete_failure();
    assert_eq!(d.delete_secret(&"carol".to_string()), Err(Error::BackendIO));
    assert!(d.get_secret(&"carol".to_string()).is_ok());
}

#[test]
fn dual_store_delete_of_missing_name_fails() {
    let mut d = DualStore::new();
    d.set_secret("alice".to_string(), Scheme::Secp256k1, vec![1; 32]).unwrap();
    assert_eq!(d.delete_secret(&"ghost".to_string()), Err(Error::NameNotFound));
    assert_eq!(d.list().len(), 1);
}

#[test]
fn store_shapes_share_one_interface() {
    for mut store in [Store::single(), Store::dual()] {
        store.set_secret("alice".to_string(), Scheme::Secp256k1, vec![1; 32]).unwrap();
        let (secret, scheme) = store.get_secret(&"alice".to_string()).unwrap();
        assert_eq!(secret, vec![1; 32]);
        assert_eq!(scheme, Scheme::Secp256k1);
        let listed = store.list();
        assert_eq!(names_of(&listed), vec!["alice".to_string()]);
        store.delete_secret(&"alice".to_string()).unwrap();
        assert!(store.list().is_empty());
    }
}
