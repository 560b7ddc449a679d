use essential_wallet::public_key;
use essential_wallet::signature_to_aligned_bytes;
use essential_wallet::signature_to_bytes;
use essential_wallet::store::Store;
use essential_wallet::Error;
use essential_wallet::Key;
use essential_wallet::Padding;
use essential_wallet::Scheme;
use essential_wallet::SecpSecretKey;
use essential_wallet::Wallet;

#[test]
fn created_key_signs_with_word_aligned_encoding() {
    let mut wallet = Wallet::temp();
    wallet.new_key_pair("alice", Scheme::Secp256k1).unwrap();
    let sig = wallet.sign_bytes_with_padding(vec![1, 2, 3], Padding::End, "alice").unwrap();
    let aligned = signature_to_aligned_bytes(&sig);
    assert_eq!(aligned.len() % 8, 0);
    let compact = signature_to_bytes(&sig);
    assert_eq!(compact.len(), 65);
}

#[test]
fn aligned_signing_accepts_aligned_and_rejects_misaligned() {
    let mut wallet = Wallet::temp();
    wallet.new_key_pair("alice", Scheme::Secp256k1).unwrap();
    assert!(wallet.sign_aligned_bytes(&[0u8; 16], "alice").is_ok());
    assert_eq!(wallet.sign_aligned_bytes(&[0u8; 15], "alice"), Err(Error::NotWordAligned));
}

#[test]
fn second_create_under_the_same_name_fails() {
    let mut wallet = Wallet::temp();
    wallet.new_key_pair("alice", Scheme::Secp256k1).unwrap();
    let before = wallet.get_public_key("alice").unwrap();
    assert_eq!(wallet.new_key_pair("alice", Scheme::Secp256k1), Err(Error::NameAlreadyExists));
    // The original record is unmodified.
    let after = wallet.get_public_key("alice").unwrap();
    assert_eq!(before, after);
}

#[test]
fn deleting_an_unknown_name_has_no_side_effect() {
    let mut wallet = Wallet::temp();
    wallet.new_key_pair("alice", Scheme::Secp256k1).unwrap();
    assert_eq!(wallet.delete_key_pair("bob"), Err(Error::NameNotFound));
    assert_eq!(wallet.list_names().unwrap(), vec!["alice".to_string()]);
}

#[test]
fn delete_then_sign_reports_name_not_found() {
    let mut wallet = Wallet::temp();
    wallet.new_key_pair("alice", Scheme::Secp256k1).unwrap();
    wallet.delete_key_pair("alice").unwrap();
    assert_eq!(wallet.sign_hash([0u8; 32], "alice"), Err(Error::NameNotFound));
}

#[test]
fn ed25519_key_pairs_are_not_supported() {
    let mut wallet = Wallet::temp();
    assert_eq!(wallet.new_key_pair("alice", Scheme::Ed25519), Err(Error::NotSupported));
    assert!(matches!(wallet.generate_private_key(Scheme::Ed25519), Err(Error::NotSupported)));
    assert_eq!(wallet.insert_key("alice", Key::Ed25519([1u8; 32])), Err(Error::NotSupported));
    assert!(wallet.list_names().unwrap().is_empty());
}

#[test]
fn inserted_key_matches_its_derived_public_key() {
    let mut wallet = Wallet::temp();
    let key = Key::Secp256k1(SecpSecretKey::from_bytes(&[1u8; 32]).unwrap());
    wallet.insert_key("imported", key).unwrap();
    let stored = wallet.get_private_key("imported").unwrap();
    assert_eq!(wallet.get_public_key("imported").unwrap(), public_key(&stored));
}

#[test]
fn signing_variants_agree_through_the_wallet() {
    let mut wallet = Wallet::temp();
    wallet.new_key_pair("alice", Scheme::Secp256k1).unwrap();
    let padded = wallet.sign_bytes_with_padding(vec![1, 2, 3], Padding::End, "alice").unwrap();
    let aligned = wallet.sign_aligned_bytes(&[1, 2, 3, 0, 0, 0, 0, 0], "alice").unwrap();
    let unchecked = wallet.sign_bytes_unchecked(&[1, 2, 3, 0, 0, 0, 0, 0], "alice").unwrap();
    assert_eq!(padded, aligned);
    assert_eq!(aligned, unchecked);
    let from_words = wallet.sign_words(&[1], "alice").unwrap();
    let from_bytes = wallet.sign_bytes_unchecked(&[0, 0, 0, 0, 0, 0, 0, 1], "alice").unwrap();
    assert_eq!(from_words, from_bytes);
}

#[test]
fn generated_keys_are_usable_without_storing() {
    let mut wallet = Wallet::temp();
    let key = wallet.generate_private_key(Scheme::Secp256k1).unwrap();
    let digest = [7u8; 32];
    let sig = essential_wallet::sign_hash(&digest, &key).unwrap();
    let pk = public_key(&key);
    assert_eq!(essential_wallet::verify(&sig, &digest, &pk), Ok(true));
}

#[test]
fn dual_backed_wallet_survives_a_failed_secret_write() {
    let mut wallet = Wallet::with_store(Store::dual());
    wallet.new_key_pair("alice", Scheme::Secp256k1).unwrap();
    if let Store::Dual(d) = &mut wallet.store {
        d.secrets.arm_write_failure();
    } else {
        panic!("expected the dual shape");
    }
    assert_eq!(wallet.new_key_pair("bob", Scheme::Secp256k1), Err(Error::BackendIO));
    // The attempted name must not appear in a listing.
    assert_eq!(wallet.list_names().unwrap(), vec!["alice".to_string()]);
    // The stored key still works.
    assert!(wallet.sign_aligned_bytes(&[0u8; 8], "alice").is_ok());
}

#[test]
fn dual_backed_wallet_survives_a_failed_secret_delete() {
    let mut wallet = Wallet::with_store(Store::dual());
    wallet.new_key_pair("carol", Scheme::Secp256k1).unwrap();
    let before = wallet.get_public_key("carol").unwrap();
    if let Store::Dual(d) = &mut wallet.store {
        d.secrets.arm_delete_failure();
    } else {
        panic!("expected the dual shape");
    }
    assert_eq!(wallet.delete_key_pair("carol"), Err(Error::BackendIO));
    // A subsequent read still succeeds and returns the original key.
    assert_eq!(wallet.get_public_key("carol").unwrap(), before);
}

#[test]
fn list_reports_names_and_schemes() {
    let mut wallet = Wallet::temp();
    wallet.new_key_pair("a", Scheme::Secp256k1).unwrap();
    wallet.new_key_pair("b", Scheme::Secp256k1).unwrap();
    let mut names = wallet.list_names().unwrap();
    names.sort();
    assert_eq!(names, vec!["a".to_string(), "b".to_string()]);
    for (_, scheme) in wallet.list() {
        assert_eq!(scheme, Scheme::Secp256k1);
    }
}
