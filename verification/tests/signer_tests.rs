use essential_wallet::encode_str;
use essential_wallet::hash_bytes;
use essential_wallet::public_key;
use essential_wallet::sign_aligned_bytes;
use essential_wallet::sign_bytes_unchecked;
use essential_wallet::sign_bytes_with_padding;
use essential_wallet::sign_hash;
use essential_wallet::sign_words;
use essential_wallet::verify;
use essential_wallet::Encoding;
use essential_wallet::Error;
use essential_wallet::Key;
use essential_wallet::Padding;
use essential_wallet::PublicKey;
use essential_wallet::SecpSecretKey;

fn test_key() -> Key {
    Key::Secp256k1(SecpSecretKey::from_bytes(&[1u8; 32]).expect("valid scalar"))
}

#[test]
fn zero_bytes_are_not_a_secret_key() {
    assert!(SecpSecretKey::from_bytes(&[0u8; 32]).is_none());
    assert!(SecpSecretKey::from_bytes(&[1u8; 31]).is_none());
    assert!(SecpSecretKey::from_bytes(&[1u8; 32]).is_some());
}

#[test]
fn secret_key_round_trips_its_bytes() {
    let key = SecpSecretKey::from_bytes(&[1u8; 32]).unwrap();
    assert_eq!(key.to_bytes(), [1u8; 32]);
}

#[test]
fn derived_public_key_matches_known_value() {
    // The secret scalar 1 derives the curve's base point.
    let sk = SecpSecretKey::from_bytes(&{
        let mut b = [0u8; 32];
        b[31] = 1;
        b
    })
    .unwrap();
    match public_key(&Key::Secp256k1(sk)) {
        PublicKey::Secp256k1(pk) => {
            assert_eq!(
                encode_str(pk.to_vec(), Encoding::Hex),
                "0279be667ef9dcbbac55a06295ce870b07029bfcdb2dce28d959f2815b16f81798"
            );
        }
        PublicKey::Ed25519(_) => panic!("wrong scheme"),
    }
}

#[test]
fn signature_verifies_against_derived_public_key() {
    let key = test_key();
    let digest = hash_bytes(b"a message to sign");
    let sig = sign_hash(&digest, &key).unwrap();
    let pk = public_key(&key);
    assert_eq!(verify(&sig, &digest, &pk), Ok(true));
}

#[test]
fn signature_does_not_verify_against_other_digest() {
    let key = test_key();
    let digest = hash_bytes(b"a message to sign");
    let other = hash_bytes(b"another message");
    let sig = sign_hash(&digest, &key).unwrap();
    let pk = public_key(&key);
    assert_eq!(verify(&sig, &other, &pk), Ok(false));
}

#[test]
fn signing_is_deterministic() {
    let key = test_key();
    let digest = hash_bytes(b"payload");
    let a = sign_hash(&digest, &key).unwrap();
    let b = sign_hash(&digest, &key).unwrap();
    assert_eq!(a, b);
}

#[test]
fn ed25519_signing_is_not_supported() {
    let key = Key::Ed25519([7u8; 32]);
    let digest = hash_bytes(b"payload");
    assert_eq!(sign_hash(&digest, &key), Err(Error::NotSupported));
    assert_eq!(sign_bytes_unchecked(b"payload", &key), Err(Error::NotSupported));
}

#[test]
fn ed25519_public_key_is_derived() {
    let seed = [7u8; 32];
    let expected = ed25519_dalek::SigningKey::from_bytes(&seed).verifying_key().to_bytes();
    match public_key(&Key::Ed25519(seed)) {
        PublicKey::Ed25519(a) => assert_eq!(a, expected),
        PublicKey::Secp256k1(_) => panic!("wrong scheme"),
    }
}

#[test]
fn aligned_signing_checks_alignment() {
    let key = test_key();
    assert!(sign_aligned_bytes(&[0u8; 16], &key).is_ok());
    assert_eq!(sign_aligned_bytes(&[0u8; 15], &key), Err(Error::NotWordAligned));
}

#[test]
fn padding_variants_agree_on_the_digest() {
    let key = test_key();
    let padded = sign_bytes_with_padding(vec![1, 2, 3], Padding::End, &key).unwrap();
    let aligned = sign_aligned_bytes(&[1, 2, 3, 0, 0, 0, 0, 0], &key).unwrap();
    let unchecked = sign_bytes_unchecked(&[1, 2, 3, 0, 0, 0, 0, 0], &key).unwrap();
    assert_eq!(padded, aligned);
    assert_eq!(aligned, unchecked);
}

#[test]
fn word_signing_hashes_word_bytes() {
    let key = test_key();
    let from_words = sign_words(&[1], &key).unwrap();
    let from_bytes = sign_bytes_unchecked(&[0, 0, 0, 0, 0, 0, 0, 1], &key).unwrap();
    assert_eq!(from_words, from_bytes);
}
