use essential_wallet::Error;
use essential_wallet::Scheme;

#[test]
fn tags_are_stable() {
    assert_eq!(Scheme::Secp256k1.tag(), "secp256k1");
    assert_eq!(Scheme::Ed25519.tag(), "ed25519");
}

#[test]
fn parsing_inverts_the_tag() {
    assert_eq!(Scheme::from_str("secp256k1"), Ok(Scheme::Secp256k1));
    assert_eq!(Scheme::from_str("ed25519"), Ok(Scheme::Ed25519));
}

#[test]
fn unknown_tags_are_rejected() {
    assert_eq!(Scheme::from_str("rsa"), Err(Error::UnknownScheme));
    assert_eq!(Scheme::from_str(""), Err(Error::UnknownScheme));
    assert_eq!(Scheme::from_str("Secp256k1"), Err(Error::UnknownScheme));
}
