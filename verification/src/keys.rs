//! Key, public key and signature types, modelled over plain bytes.
//!
//! Secret scalars, public keys and signatures are held as fixed-size byte
//! arrays; the cryptographic operations on them live in [`crate::signer`].

use vstd::prelude::*;

use crate::scheme::Scheme;

verus! {

/// Whether a byte string forms a valid secp256k1 secret scalar.
pub uninterp spec fn secp_valid_key(bytes: Seq<u8>) -> bool;

/// Relies on `secp256k1::SecretKey::from_slice`: it succeeds exactly on the
/// byte strings that form a valid secret scalar, which are always 32 bytes
/// long; validity is a function of the bytes alone.
#[verifier::external_body]
fn secp_secret_key_ok(bytes: &[u8]) -> (r: bool)
    ensures
        r == secp_valid_key(bytes@),
        r ==> bytes@.len() == 32,
{
    secp256k1::SecretKey::from_slice(bytes).is_ok()
}

/// A validated secp256k1 secret scalar.
#[derive(Clone, Copy)]
pub struct SecpSecretKey {
    bytes: [u8; 32],
}

impl View for SecpSecretKey {
    type V = Seq<u8>;

    closed spec fn view(&self) -> Seq<u8> {
        self.bytes@
    }
}

impl SecpSecretKey {
    #[verifier::type_invariant]
    spec fn type_inv(self) -> bool {
        secp_valid_key(self.bytes@)
    }

    /// Validate candidate scalar bytes; `None` exactly when they do not form
    /// a valid secret key.
    pub fn from_bytes(bytes: &[u8]) -> (r: Option<SecpSecretKey>)
        ensures
            r is Some <==> secp_valid_key(bytes@),
            r matches Some(k) ==> k@ == bytes@,
    {
        if secp_secret_key_ok(bytes) {
            let mut arr = [0u8; 32];
            let mut i: usize = 0;
            while i < 32
                invariant
                    i <= 32,
                    bytes@.len() == 32,
                    arr@.len() == 32,
                    forall|j: int| 0 <= j < i ==> arr@[j] == bytes@[j],
                decreases 32 - i,
            {
                arr[i] = bytes[i];
                i = i + 1;
            }
            proof {
                assert(arr@ =~= bytes@);
            }
            Some(SecpSecretKey { bytes: arr })
        } else {
            None
        }
    }

    /// The scalar bytes; they are always a valid secret key.
    pub fn to_bytes(&self) -> (r: [u8; 32])
        ensures
            r@ == self@,
            secp_valid_key(self@),
    {
        proof {
            use_type_invariant(self);
        }
        self.bytes
    }
}

/// A private key for one of the supported schemes.
#[derive(Clone, Copy)]
pub enum Key {
    /// A secp256k1 secret scalar.
    Secp256k1(SecpSecretKey),
    /// An ed25519 seed.
    Ed25519([u8; 32]),
}

impl Key {
    /// The scheme this key belongs to.
    pub open spec fn scheme(self) -> Scheme {
        match self {
            Key::Secp256k1(_) => Scheme::Secp256k1,
            Key::Ed25519(_) => Scheme::Ed25519,
        }
    }

    /// The secret bytes the key holds.
    pub open spec fn secret_view(self) -> Seq<u8> {
        match self {
            Key::Secp256k1(k) => k@,
            Key::Ed25519(seed) => seed@,
        }
    }
}

/// A public key for one of the supported schemes.
#[derive(Clone, Copy, Debug, PartialEq, Eq)]
pub enum PublicKey {
    /// A 33-byte compressed secp256k1 public key.
    Secp256k1([u8; 33]),
    /// A 32-byte ed25519 verifying key.
    Ed25519([u8; 32]),
}

/// A secp256k1 recoverable signature: the 64-byte compact form and the
/// one-byte recovery id.
#[derive(Clone, Copy, Debug, PartialEq, Eq)]
pub struct SecpSignature {
    /// The compact (r, s) encoding.
    pub bytes: [u8; 64],
    /// The recovery id, always at most 3.
    pub rec_id: u8,
}

/// A signature produced by one of the supported schemes.
///
/// Equality is structural.
#[derive(Clone, Copy, Debug, PartialEq, Eq)]
pub enum Signature {
    /// A secp256k1 recoverable signature.
    Secp256k1(SecpSignature),
    /// A 64-byte ed25519 signature.
    Ed25519([u8; 64]),
}

impl Signature {
    /// Well-formedness: a recovery id never exceeds 3.
    pub open spec fn wf(self) -> bool {
        match self {
            Signature::Secp256k1(s) => s.rec_id <= 3,
            Signature::Ed25519(_) => true,
        }
    }

    /// The scheme this signature belongs to.
    pub open spec fn scheme(self) -> Scheme {
        match self {
            Signature::Secp256k1(_) => Scheme::Secp256k1,
            Signature::Ed25519(_) => Scheme::Ed25519,
        }
    }
}

} // verus!
