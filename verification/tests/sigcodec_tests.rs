use essential_wallet::decode;
use essential_wallet::encode;
use essential_wallet::hash_bytes;
use essential_wallet::public_key;
use essential_wallet::public_key_to_words;
use essential_wallet::sign_hash;
use essential_wallet::signature_to_aligned_bytes;
use essential_wallet::signature_to_bytes;
use essential_wallet::signature_to_words;
use essential_wallet::Error;
use essential_wallet::Key;
use essential_wallet::PublicKey;
use essential_wallet::Scheme;
use essential_wallet::SecpSecretKey;
use essential_wallet::SecpSignature;
use essential_wallet::Signature;
use essential_wallet::SignatureForm;

fn secp_signature() -> Signature {
    let key = Key::Secp256k1(SecpSecretKey::from_bytes(&[1u8; 32]).unwrap());
    let digest = hash_bytes(b"round trip me");
    sign_hash(&digest, &key).unwrap()
}

#[test]
fn secp_round_trips_in_both_forms() {
    let sig = secp_signature();
    for form in [SignatureForm::Aligned, SignatureForm::Compact] {
        let bytes = encode(&sig, form);
        let back = decode(&bytes, Scheme::Secp256k1, form);
        assert_eq!(back, Some(sig));
    }
}

#[test]
fn ed25519_round_trips_in_both_forms() {
    let mut raw = [0u8; 64];
    for (i, b) in raw.iter_mut().enumerate() {
        *b = i as u8;
    }
    let sig = Signature::Ed25519(raw);
    for form in [SignatureForm::Aligned, SignatureForm::Compact] {
        let bytes = encode(&sig, form);
        assert_eq!(bytes.len(), 64);
        let back = decode(&bytes, Scheme::Ed25519, form);
        assert_eq!(back, Some(sig));
    }
}

#[test]
fn encoding_lengths_match_the_layout() {
    let sig = secp_signature();
    let compact = signature_to_bytes(&sig);
    assert_eq!(compact.len(), 65);
    let aligned = signature_to_aligned_bytes(&sig);
    assert_eq!(aligned.len(), 72);
    assert_eq!(aligned.len() % 8, 0);
    // The aligned form is the compact signature with the recovery id spread
    // into its own trailing word.
    assert_eq!(&aligned[..64], &compact[..64]);
    assert_eq!(&aligned[64..71], &[0u8; 7]);
    assert_eq!(aligned[71], compact[64]);
}

#[test]
fn malformed_encodings_are_rejected() {
    assert_eq!(decode(&[0u8; 64], Scheme::Secp256k1, SignatureForm::Compact), None);
    assert_eq!(decode(&[0u8; 66], Scheme::Secp256k1, SignatureForm::Compact), None);
    let mut bad_rec_id = [0u8; 65];
    bad_rec_id[64] = 4;
    assert_eq!(decode(&bad_rec_id, Scheme::Secp256k1, SignatureForm::Compact), None);
    let mut bad_pad = [0u8; 72];
    bad_pad[65] = 1;
    assert_eq!(decode(&bad_pad, Scheme::Secp256k1, SignatureForm::Aligned), None);
    assert_eq!(decode(&[0u8; 63], Scheme::Ed25519, SignatureForm::Compact), None);
}

#[test]
fn decoding_accepts_any_valid_rec_id() {
    let mut bytes = [9u8; 65];
    bytes[64] = 3;
    let sig = decode(&bytes, Scheme::Secp256k1, SignatureForm::Compact).unwrap();
    assert_eq!(sig, Signature::Secp256k1(SecpSignature { bytes: [9u8; 64], rec_id: 3 }));
}

#[test]
fn signature_words_match_the_aligned_bytes() {
    let sig = secp_signature();
    let words = signature_to_words(&sig).unwrap();
    assert_eq!(words.len(), 9);
    let aligned = signature_to_aligned_bytes(&sig);
    for (i, w) in words.iter().enumerate() {
        let chunk: [u8; 8] = aligned[8 * i..8 * i + 8].try_into().unwrap();
        assert_eq!(*w, i64::from_be_bytes(chunk));
    }
    match sig {
        Signature::Secp256k1(s) => assert_eq!(words[8], s.rec_id as i64),
        Signature::Ed25519(_) => panic!("wrong scheme"),
    }
}

#[test]
fn ed25519_words_are_not_supported() {
    let sig = Signature::Ed25519([1u8; 64]);
    assert_eq!(signature_to_words(&sig), Err(Error::NotSupported));
}

#[test]
fn public_key_words_match_the_layout() {
    let key = Key::Secp256k1(SecpSecretKey::from_bytes(&[1u8; 32]).unwrap());
    let pk = public_key(&key);
    let words = public_key_to_words(&pk);
    assert_eq!(words.len(), 5);
    match pk {
        PublicKey::Secp256k1(bytes) => {
            for (i, w) in words.iter().take(4).enumerate() {
                let chunk: [u8; 8] = bytes[8 * i..8 * i + 8].try_into().unwrap();
                assert_eq!(*w, i64::from_be_bytes(chunk));
            }
            assert_eq!(words[4], bytes[32] as i64);
        }
        PublicKey::Ed25519(_) => panic!("wrong scheme"),
    }

    let ed = public_key(&Key::Ed25519([3u8; 32]));
    let ed_words = public_key_to_words(&ed);
    assert_eq!(ed_words.len(), 4);
}
