//! Scheme-dispatched signing, public-key derivation and verification,
//! together with the hash-then-sign entry points.
//!
//! Every entry point reduces its input to a 256-bit digest and hands the
//! digest to [`sign_hash`]; the digest is the signed message, with no second
//! hash.

use vstd::prelude::*;

use secp256k1::rand::SeedableRng;

use crate::codec::aligned_pad;
use crate::codec::is_aligned;
use crate::codec::Padding;
use crate::codec::Word;
use crate::error::Error;
use crate::hash::hash_bytes;
use crate::hash::hash_words;
use crate::hash::sha256_of;
use crate::hash::word_bytes_concat;
use crate::keys::secp_valid_key;
use crate::keys::Key;
use crate::keys::PublicKey;
use crate::keys::SecpSignature;
use crate::keys::Signature;
use crate::util::bytes_eq;

verus! {

/// The compact signature bytes and recovery id that secp256k1 recoverable
/// ECDSA produces for a digest and a secret key: deterministic nonces make
/// the pair a function of its two arguments alone.
pub uninterp spec fn secp_sign_of(digest: Seq<u8>, key: Seq<u8>) -> (Seq<u8>, u8);

/// The 33-byte compressed public key derived from a secp256k1 secret scalar.
pub uninterp spec fn secp_pubkey_of(key: Seq<u8>) -> Seq<u8>;

/// The compressed public key that secp256k1 recovery yields for a digest,
/// compact signature bytes and recovery id, or `None` when the triple is not
/// a valid recoverable signature.
pub uninterp spec fn secp_recover_of(digest: Seq<u8>, sig: Seq<u8>, rec_id: u8) -> Option<Seq<u8>>;

/// The 32-byte ed25519 verifying key derived from a 32-byte seed.
pub uninterp spec fn ed25519_pubkey_of(seed: Seq<u8>) -> Seq<u8>;

/// Relies on `essential_sign::sign_hash`, which signs the digest as a
/// `secp256k1` message with `sign_ecdsa_recoverable` and serializes the
/// result in compact form: the signature is a function of digest and key
/// alone (RFC 6979 deterministic nonces), the recovery id is at most 3, and
/// recovering from the digest and signature yields the key's public key.
#[verifier::external_body]
fn secp_sign_digest(digest: &[u8; 32], key: &[u8; 32]) -> (r: ([u8; 64], u8))
    requires
        secp_valid_key(key@),
    ensures
        (r.0@, r.1) == secp_sign_of(digest@, key@),
        r.1 <= 3,
        secp_recover_of(digest@, r.0@, r.1) == Some(secp_pubkey_of(key@)),
{
    let sk = secp256k1::SecretKey::from_slice(key).expect("validated secret key bytes");
    let sig = essential_sign::sign_hash(*digest, &sk);
    (sig.0, sig.1)
}

/// Relies on `secp256k1::SecretKey::public_key` and
/// `secp256k1::PublicKey::serialize`: the 33-byte compressed public key is
/// derived from the secret scalar alone.
#[verifier::external_body]
fn secp_public_key_bytes(key: &[u8; 32]) -> (r: [u8; 33])
    requires
        secp_valid_key(key@),
    ensures
        r@ == secp_pubkey_of(key@),
{
    let sk = secp256k1::SecretKey::from_slice(key).expect("validated secret key bytes");
    let secp = secp256k1::Secp256k1::new();
    sk.public_key(&secp).serialize()
}

/// Relies on `essential_sign::recover_hash` (secp256k1 ECDSA public-key
/// recovery): the outcome is a function of digest, signature bytes and
/// recovery id alone; it fails exactly when the triple is not a valid
/// recoverable signature.
#[verifier::external_body]
fn secp_recover_digest(digest: &[u8; 32], sig: &[u8; 64], rec_id: u8) -> (r: Option<[u8; 33]>)
    ensures
        (r is Some) == (secp_recover_of(digest@, sig@, rec_id) is Some),
        r matches Some(pk) ==> secp_recover_of(digest@, sig@, rec_id) == Some(pk@),
{
    match essential_sign::recover_hash(*digest, &essential_types::Signature(*sig, rec_id)) {
        Ok(pk) => Some(pk.serialize()),
        Err(_) => None,
    }
}

/// Relies on `ed25519_dalek::SigningKey::from_bytes`, `verifying_key` and
/// `VerifyingKey::to_bytes`: the verifying key is derived from the seed
/// alone.
#[verifier::external_body]
fn ed25519_public_key_bytes(seed: &[u8; 32]) -> (r: [u8; 32])
    ensures
        r@ == ed25519_pubkey_of(seed@),
{
    ed25519_dalek::SigningKey::from_bytes(seed).verifying_key().to_bytes()
}

/// Relies on `secp256k1::Secp256k1::generate_keypair` with an OS-seeded
/// `rand` `StdRng`: the returned secret key is always a valid scalar.
/// Nothing else is assumed of the random result.
#[verifier::external_body]
pub(crate) fn secp_generate_secret_key() -> (r: [u8; 32])
    ensures
        secp_valid_key(r@),
{
    let secp = secp256k1::Secp256k1::new();
    let mut rng = secp256k1::rand::rngs::StdRng::from_entropy();
    let (sk, _) = secp.generate_keypair(&mut rng);
    sk.secret_bytes()
}

/// What a correct signing result over `digest` with secp256k1 key bytes
/// `key` looks like: the deterministic signature pair, and a signature from
/// which the key's public key can be recovered.
pub open spec fn secp_signs(r: Result<Signature, Error>, digest: Seq<u8>, key: Seq<u8>) -> bool {
    &&& r matches Ok(Signature::Secp256k1(s))
    &&& (s.bytes@, s.rec_id) == secp_sign_of(digest, key)
    &&& s.rec_id <= 3
    &&& secp_recover_of(digest, s.bytes@, s.rec_id) == Some(secp_pubkey_of(key))
}

/// Every signature the signer hands out validates against the digest it was
/// made for and the signing key's derived public key: recovering from the
/// digest and signature yields exactly that key, which is what `verify`
/// checks.
pub proof fn lemma_signature_verifies(r: Result<Signature, Error>, digest: Seq<u8>, key: Seq<u8>)
    requires
        secp_signs(r, digest, key),
    ensures
        r is Ok,
        r matches Ok(Signature::Secp256k1(s)) ==> secp_recover_of(digest, s.bytes@, s.rec_id)
            == Some(secp_pubkey_of(key)),
{
}

/// What every signing entry point returns once its digest is fixed: the
/// secp256k1 signature over the digest, or `NotSupported` for the
/// unimplemented ed25519 path.
pub open spec fn signs_digest(r: Result<Signature, Error>, digest: Seq<u8>, key: Key) -> bool {
    match key {
        Key::Secp256k1(sk) => secp_signs(r, digest, sk@),
        Key::Ed25519(_) => r == Err::<Signature, Error>(Error::NotSupported),
    }
}

/// Sign an already computed 256-bit digest.
///
/// The digest itself is the signed message.
pub fn sign_hash(hash: &[u8; 32], private_key: &Key) -> (r: Result<Signature, Error>)
    ensures
        signs_digest(r, hash@, *private_key),
        r matches Ok(sig) ==> sig.wf() && sig.scheme() == private_key.scheme(),
{
    match private_key {
        Key::Secp256k1(sk) => {
            let kb = sk.to_bytes();
            let (bytes, rec_id) = secp_sign_digest(hash, &kb);
            Ok(Signature::Secp256k1(SecpSignature { bytes, rec_id }))
        }
        Key::Ed25519(_) => Err(Error::NotSupported),
    }
}

/// Sign the data by hashing it and signing the digest.
///
/// This does **not** check whether the data is word aligned.
pub fn sign_bytes_unchecked(data: &[u8], private_key: &Key) -> (r: Result<Signature, Error>)
    ensures
        signs_digest(r, sha256_of(data@), *private_key),
{
    let digest = hash_bytes(data);
    sign_hash(&digest, private_key)
}

/// Sign already word-aligned data by hashing it and signing the digest.
///
/// If the data is not word aligned, fails with `NotWordAligned`.
pub fn sign_aligned_bytes(data: &[u8], private_key: &Key) -> (r: Result<Signature, Error>)
    ensures
        !is_aligned(data@) ==> r == Err::<Signature, Error>(Error::NotWordAligned),
        is_aligned(data@) ==> signs_digest(r, sha256_of(data@), *private_key),
{
    if !crate::codec::is_word_aligned(data) {
        return Err(Error::NotWordAligned);
    }
    let digest = hash_bytes(data);
    sign_hash(&digest, private_key)
}

/// Sign the data by padding it to be word aligned, hashing it, and signing
/// the digest.
///
/// If the data is already word aligned no padding occurs.
pub fn sign_bytes_with_padding(data: Vec<u8>, padding: Padding, private_key: &Key) -> (r: Result<
    Signature,
    Error,
>)
    requires
        data@.len() + 8 <= usize::MAX,
    ensures
        signs_digest(r, sha256_of(aligned_pad(data@, padding)), *private_key),
{
    let aligned = crate::codec::align_to_word(data, padding);
    let digest = hash_bytes(aligned.as_slice());
    sign_hash(&digest, private_key)
}

/// Sign a slice of words by hashing the word sequence under the
/// word-oriented hash and signing the digest.
pub fn sign_words(data: &[Word], private_key: &Key) -> (r: Result<Signature, Error>)
    ensures
        signs_digest(r, sha256_of(word_bytes_concat(data@)), *private_key),
{
    let digest = hash_words(data);
    sign_hash(&digest, private_key)
}

/// Derive the public key from a private key.
pub fn public_key(private_key: &Key) -> (r: PublicKey)
    ensures
        private_key matches Key::Secp256k1(sk) ==> r matches PublicKey::Secp256k1(pk) && pk@
            == secp_pubkey_of(sk@),
        private_key matches Key::Ed25519(seed) ==> r matches PublicKey::Ed25519(pk) && pk@
            == ed25519_pubkey_of(seed@),
{
    match private_key {
        Key::Secp256k1(sk) => {
            let kb = sk.to_bytes();
            PublicKey::Secp256k1(secp_public_key_bytes(&kb))
        }
        Key::Ed25519(seed) => PublicKey::Ed25519(ed25519_public_key_bytes(seed)),
    }
}

/// Check a signature over a digest against a public key.
///
/// For secp256k1 this recovers the signer's public key from the digest and
/// signature and compares it with the given key. The ed25519 path is
/// unimplemented and fails with `NotSupported`.
pub fn verify(sig: &Signature, hash: &[u8; 32], public_key: &PublicKey) -> (r: Result<bool, Error>)
    ensures
        sig matches Signature::Secp256k1(s) ==> public_key matches PublicKey::Secp256k1(pk) ==> r
            == Ok::<bool, Error>(secp_recover_of(hash@, s.bytes@, s.rec_id) == Some(pk@)),
        (sig is Ed25519 || public_key is Ed25519) ==> r == Err::<bool, Error>(Error::NotSupported),
{
    match (sig, public_key) {
        (Signature::Secp256k1(s), PublicKey::Secp256k1(pk)) => {
            match secp_recover_digest(hash, &s.bytes, s.rec_id) {
                Some(recovered) => Ok(bytes_eq(recovered.as_slice(), pk.as_slice())),
                None => Ok(false),
            }
        }
        _ => Err(Error::NotSupported),
    }
}

} // verus!
