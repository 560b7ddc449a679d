//! The wallet: named keys resolved from a store, driving the signing
//! pipeline.
//!
//! A wallet maps caller-chosen names to `(Scheme, secret)` pairs through a
//! [`Store`] and signs payloads with the key stored under a name. Secret
//! bytes are only reconstructed into a key for the duration of one
//! operation.

use vstd::prelude::*;

use crate::codec::aligned_pad;
use crate::codec::is_aligned;
use crate::codec::Padding;
use crate::codec::Word;
use crate::error::Error;
use crate::hash::sha256_of;
use crate::hash::word_bytes_concat;
use crate::keys::secp_valid_key;
use crate::keys::Key;
use crate::keys::PublicKey;
use crate::keys::SecpSecretKey;
use crate::keys::Signature;
use crate::scheme::Scheme;
use crate::signer::secp_generate_secret_key;
use crate::signer::secp_pubkey_of;
use crate::signer::secp_signs;
use crate::store::Store;
use crate::util::push_bytes;
use crate::util::string_of;

verus! {

/// What resolving a name to a private key returns: the stored secret as a
/// key, or the error that says why not.
pub open spec fn resolves_key(
    m: Map<Seq<char>, (Scheme, Seq<u8>)>,
    name: Seq<char>,
    r: Result<Key, Error>,
) -> bool {
    if !m.contains_key(name) {
        r == Err::<Key, Error>(Error::NameNotFound)
    } else {
        match m[name].0 {
            Scheme::Ed25519 => r == Err::<Key, Error>(Error::NotSupported),
            Scheme::Secp256k1 => if secp_valid_key(m[name].1) {
                r matches Ok(Key::Secp256k1(k)) && k@ == m[name].1
            } else {
                r == Err::<Key, Error>(Error::Inconsistent)
            },
        }
    }
}

/// What signing a fixed digest with the key stored under a name returns.
pub open spec fn wallet_signs(
    m: Map<Seq<char>, (Scheme, Seq<u8>)>,
    name: Seq<char>,
    digest: Seq<u8>,
    r: Result<Signature, Error>,
) -> bool {
    if !m.contains_key(name) {
        r == Err::<Signature, Error>(Error::NameNotFound)
    } else {
        match m[name].0 {
            Scheme::Ed25519 => r == Err::<Signature, Error>(Error::NotSupported),
            Scheme::Secp256k1 => if secp_valid_key(m[name].1) {
                secp_signs(r, digest, m[name].1)
            } else {
                r == Err::<Signature, Error>(Error::Inconsistent)
            },
        }
    }
}

/// As `wallet_signs`, for the entry point that additionally insists the
/// payload is already word aligned. The name is resolved first, so a missing
/// name or an unusable key reports before the alignment check.
pub open spec fn wallet_signs_aligned(
    m: Map<Seq<char>, (Scheme, Seq<u8>)>,
    name: Seq<char>,
    data: Seq<u8>,
    r: Result<Signature, Error>,
) -> bool {
    if !m.contains_key(name) {
        r == Err::<Signature, Error>(Error::NameNotFound)
    } else {
        match m[name].0 {
            Scheme::Ed25519 => r == Err::<Signature, Error>(Error::NotSupported),
            Scheme::Secp256k1 => if !secp_valid_key(m[name].1) {
                r == Err::<Signature, Error>(Error::Inconsistent)
            } else if !is_aligned(data) {
                r == Err::<Signature, Error>(Error::NotWordAligned)
            } else {
                secp_signs(r, sha256_of(data), m[name].1)
            },
        }
    }
}

/// Whether some name in the list reads `k`.
pub open spec fn has_name(names: Seq<String>, k: Seq<char>) -> bool {
    exists|i: int| 0 <= i < names.len() && names[i]@ == k
}

/// A wallet over one of the two store shapes.
pub struct Wallet {
    /// The backing key store.
    pub store: Store,
}

impl View for Wallet {
    type V = Map<Seq<char>, (Scheme, Seq<u8>)>;

    open spec fn view(&self) -> Map<Seq<char>, (Scheme, Seq<u8>)> {
        self.store@
    }
}

impl Wallet {
    /// Well-formedness of the backing store.
    pub open spec fn wf(self) -> bool {
        self.store.wf()
    }

    /// A wallet over the given store.
    pub fn with_store(store: Store) -> (r: Wallet)
        requires
            store.wf(),
        ensures
            r.wf(),
            r@ == store@,
    {
        Wallet { store }
    }

    /// An empty in-memory wallet over the single-store shape, for testing.
    pub fn temp() -> (r: Wallet)
        ensures
            r.wf(),
            r@ == Map::<Seq<char>, (Scheme, Seq<u8>)>::empty(),
            !r.store.write_armed(),
            !r.store.delete_armed(),
    {
        Wallet { store: Store::single() }
    }

    /// Generate a private key for the scheme without storing it.
    pub fn generate_private_key(&mut self, scheme: Scheme) -> (r: Result<Key, Error>)
        ensures
            *final(self) == *old(self),
            scheme is Ed25519 ==> r == Err::<Key, Error>(Error::NotSupported),
            scheme is Secp256k1 ==> (r matches Ok(k) && k is Secp256k1),
    {
        match scheme {
            Scheme::Ed25519 => Err(Error::NotSupported),
            Scheme::Secp256k1 => {
                let bytes = secp_generate_secret_key();
                match SecpSecretKey::from_bytes(bytes.as_slice()) {
                    Some(k) => Ok(Key::Secp256k1(k)),
                    None => {
                        proof {
                            assert(false);
                        }
                        Err(Error::Inconsistent)
                    }
                }
            }
        }
    }

    /// Create a new key pair and store it under `name`.
    pub fn new_key_pair(&mut self, name: &str, scheme: Scheme) -> (r: Result<(), Error>)
        requires
            old(self).wf(),
        ensures
            final(self).wf(),
            scheme is Ed25519 ==> r == Err::<(), Error>(Error::NotSupported) && *final(self)
                == *old(self),
            scheme is Secp256k1 && old(self)@.contains_key(name@) ==> r == Err::<(), Error>(
                Error::NameAlreadyExists,
            ) && final(self)@ == old(self)@,
            scheme is Secp256k1 && !old(self)@.contains_key(name@) && old(
                self,
            ).store.write_armed() ==> r == Err::<(), Error>(Error::BackendIO) && final(self)@
                == old(self)@,
            scheme is Secp256k1 && !old(self)@.contains_key(name@) && !old(
                self,
            ).store.write_armed() ==> r == Ok::<(), Error>(()) && (exists|k: Seq<u8>|
                #![auto]
                secp_valid_key(k) && final(self)@ == old(self)@.insert(
                    name@,
                    (Scheme::Secp256k1, k),
                )),
    {
        match scheme {
            Scheme::Ed25519 => Err(Error::NotSupported),
            Scheme::Secp256k1 => {
                let bytes = secp_generate_secret_key();
                let mut secret: Vec<u8> = Vec::new();
                push_bytes(&mut secret, bytes.as_slice());
                let ghost secret_view = secret@;
                let r = self.store.set_secret(string_of(name), scheme, secret);
                match r {
                    Ok(_) => {
                        proof {
                            assert(secp_valid_key(secret_view) && final(self)@ == old(
                                self,
                            )@.insert(name@, (Scheme::Secp256k1, secret_view)));
                        }
                        Ok(())
                    }
                    Err(e) => Err(e),
                }
            }
        }
    }

    /// Insert an existing key into the wallet under `name`.
    pub fn insert_key(&mut self, name: &str, key: Key) -> (r: Result<(), Error>)
        requires
            old(self).wf(),
        ensures
            final(self).wf(),
            key is Ed25519 ==> r == Err::<(), Error>(Error::NotSupported) && *final(self) == *old(
                self,
            ),
            key is Secp256k1 && old(self)@.contains_key(name@) ==> r == Err::<(), Error>(
                Error::NameAlreadyExists,
            ) && final(self)@ == old(self)@,
            key is Secp256k1 && !old(self)@.contains_key(name@) && old(self).store.write_armed()
                ==> r == Err::<(), Error>(Error::BackendIO) && final(self)@ == old(self)@,
            key matches Key::Secp256k1(k) ==> !old(self)@.contains_key(name@) && !old(
                self,
            ).store.write_armed() ==> r == Ok::<(), Error>(()) && final(self)@ == old(self)@.insert(
                name@,
                (Scheme::Secp256k1, k@),
            ),
    {
        match key {
            Key::Ed25519(_) => Err(Error::NotSupported),
            Key::Secp256k1(k) => {
                let bytes = k.to_bytes();
                let mut secret: Vec<u8> = Vec::new();
                push_bytes(&mut secret, bytes.as_slice());
                self.store.set_secret(string_of(name), Scheme::Secp256k1, secret)
            }
        }
    }

    /// Delete the key pair stored under `name`.
    pub fn delete_key_pair(&mut self, name: &str) -> (r: Result<(), Error>)
        requires
            old(self).wf(),
        ensures
            final(self).wf(),
            !old(self)@.contains_key(name@) ==> r == Err::<(), Error>(Error::NameNotFound)
                && final(self)@ == old(self)@,
            old(self)@.contains_key(name@) && old(self).store.delete_armed() ==> r == Err::<(),
            Error>(Error::BackendIO) && final(self)@ == old(self)@,
            old(self)@.contains_key(name@) && !old(self).store.delete_armed() ==> r == Ok::<(),
            Error>(()) && final(self)@ == old(self)@.remove(name@),
    {
        let owned = string_of(name);
        self.store.delete_secret(&owned)
    }

    /// All `(name, scheme)` pairs in the store; secrets are never included.
    pub fn list(&self) -> (r: Vec<(String, Scheme)>)
        requires
            self.wf(),
        ensures
            forall|i: int|
                0 <= i < r@.len() ==> #[trigger] self@.contains_key(r@[i].0@) && r@[i].1
                    == self@[r@[i].0@].0,
            forall|i: int, j: int| #![trigger r@[i], r@[j]] 0 <= i < j < r@.len() ==> r@[i].0@
                != r@[j].0@,
            forall|k: Seq<char>| #[trigger] self@.contains_key(k) ==> exists|i: int|
                0 <= i < r@.len() && r@[i].0@ == k,
    {
        let r = self.store.list();
        proof {
            assert(forall|i: int, j: int|
                #![trigger r@[i], r@[j]]
                0 <= i < j < r@.len() ==> r@[i].0@ != r@[j].0@);
            assert(forall|k: Seq<char>| #[trigger]
                self.store@.contains_key(k) ==> exists|i: int| 0 <= i < r@.len() && r@[i].0@ == k);
            assert(forall|i: int|
                0 <= i < r@.len() ==> #[trigger] self.store@.contains_key(r@[i].0@) && r@[i].1
                    == self.store@[r@[i].0@].0);
            assert forall|i: int|
                0 <= i < r@.len() implies #[trigger] self@.contains_key(r@[i].0@) && r@[i].1
                == self@[r@[i].0@].0 by {
                assert(self.store@.contains_key(r@[i].0@) && r@[i].1 == self.store@[r@[i].0@].0);
            }
            assert forall|k: Seq<char>| #[trigger] self@.contains_key(k) implies exists|i: int|
                0 <= i < r@.len() && r@[i].0@ == k by {
                assert(self.store@.contains_key(k));
            }
        }
        r
    }

    /// All names for key pairs in the store.
    pub fn list_names(&mut self) -> (r: Result<Vec<String>, Error>)
        requires
            old(self).wf(),
        ensures
            *final(self) == *old(self),
            r is Ok,
            r matches Ok(names) ==> forall|i: int|
                0 <= i < names@.len() ==> #[trigger] old(self)@.contains_key(names@[i]@),
            r matches Ok(names) ==> forall|i: int, j: int|
                #![trigger names@[i], names@[j]]
                0 <= i < j < names@.len() ==> names@[i]@ != names@[j]@,
            r matches Ok(names) ==> forall|k: Seq<char>| #[trigger]
                old(self)@.contains_key(k) ==> has_name(names@, k),
    {
        let pairs = self.list();
        proof {
            assert(forall|i: int, j: int|
                #![trigger pairs@[i], pairs@[j]]
                0 <= i < j < pairs@.len() ==> pairs@[i].0@ != pairs@[j].0@);
            assert(forall|i: int|
                0 <= i < pairs@.len() ==> #[trigger] self@.contains_key(pairs@[i].0@)
                    && pairs@[i].1 == self@[pairs@[i].0@].0);
            assert(forall|k: Seq<char>| #[trigger]
                self@.contains_key(k) ==> exists|i: int| 0 <= i < pairs@.len() && pairs@[i].0@
                    == k);
        }
        let n = pairs.len();
        let mut names: Vec<String> = Vec::new();
        let mut i: usize = 0;
        while i < n
            invariant
                n == pairs@.len(),
                i <= n,
                names@.len() == i,
                forall|j: int| 0 <= j < i ==> #[trigger] names@[j]@ == pairs@[j].0@,
            decreases n - i,
        {
            names.push(pairs[i].0.clone());
            i = i + 1;
        }
        proof {
            assert forall|i2: int|
                0 <= i2 < names@.len() implies #[trigger] self@.contains_key(names@[i2]@) by {
                assert(self@.contains_key(pairs@[i2].0@));
            }
            assert forall|a: int, b: int|
                #![trigger names@[a], names@[b]]
                0 <= a < b < names@.len() implies names@[a]@ != names@[b]@ by {
                assert(pairs@[a].0@ != pairs@[b].0@);
            }
            assert forall|k: Seq<char>| #[trigger]
                old(self)@.contains_key(k) implies has_name(names@, k) by {
                assert(self@.contains_key(k));
                let j = choose|j: int| 0 <= j < pairs@.len() && pairs@[j].0@ == k;
                assert(0 <= j < names@.len() && names@[j]@ == k);
            }
        }
        Ok(names)
    }

    /// Resolve a name to the private key stored under it.
    fn name_to_key(&self, name: &str) -> (r: Result<Key, Error>)
        requires
            self.wf(),
        ensures
            resolves_key(self@, name@, r),
    {
        let owned = string_of(name);
        match self.store.get_secret(&owned) {
            Err(e) => Err(e),
            Ok((secret, scheme)) => match scheme {
                Scheme::Ed25519 => Err(Error::NotSupported),
                Scheme::Secp256k1 => match SecpSecretKey::from_bytes(secret.as_slice()) {
                    Some(k) => Ok(Key::Secp256k1(k)),
                    None => Err(Error::Inconsistent),
                },
            },
        }
    }

    /// Get the private key stored under `name`.
    pub fn get_private_key(&mut self, name: &str) -> (r: Result<Key, Error>)
        requires
            old(self).wf(),
        ensures
            *final(self) == *old(self),
            resolves_key(old(self)@, name@, r),
    {
        self.name_to_key(name)
    }

    /// Get the public key for the key pair stored under `name`, re-derived
    /// from the private key.
    pub fn get_public_key(&mut self, name: &str) -> (r: Result<PublicKey, Error>)
        requires
            old(self).wf(),
        ensures
            *final(self) == *old(self),
            !old(self)@.contains_key(name@) ==> r == Err::<PublicKey, Error>(Error::NameNotFound),
            old(self)@.contains_key(name@) ==> match old(self)@[name@].0 {
                Scheme::Ed25519 => r == Err::<PublicKey, Error>(Error::NotSupported),
                Scheme::Secp256k1 => if secp_valid_key(old(self)@[name@].1) {
                    r matches Ok(PublicKey::Secp256k1(pk)) && pk@ == secp_pubkey_of(
                        old(self)@[name@].1,
                    )
                } else {
                    r == Err::<PublicKey, Error>(Error::Inconsistent)
                },
            },
    {
        match self.name_to_key(name) {
            Err(e) => Err(e),
            Ok(key) => Ok(crate::signer::public_key(&key)),
        }
    }

    /// Sign an already computed digest with the key stored under `name`.
    pub fn sign_hash(&mut self, data: [u8; 32], name: &str) -> (r: Result<Signature, Error>)
        requires
            old(self).wf(),
        ensures
            *final(self) == *old(self),
            wallet_signs(old(self)@, name@, data@, r),
    {
        match self.name_to_key(name) {
            Err(e) => Err(e),
            Ok(key) => crate::signer::sign_hash(&data, &key),
        }
    }

    /// Hash a word slice and sign the digest with the key stored under
    /// `name`.
    pub fn sign_words(&mut self, data: &[Word], name: &str) -> (r: Result<Signature, Error>)
        requires
            old(self).wf(),
        ensures
            *final(self) == *old(self),
            wallet_signs(old(self)@, name@, sha256_of(word_bytes_concat(data@)), r),
    {
        match self.name_to_key(name) {
            Err(e) => Err(e),
            Ok(key) => crate::signer::sign_words(data, &key),
        }
    }

    /// Pad the data to be word aligned, hash it, and sign the digest with
    /// the key stored under `name`.
    pub fn sign_bytes_with_padding(&mut self, data: Vec<u8>, padding: Padding, name: &str) -> (r:
        Result<Signature, Error>)
        requires
            old(self).wf(),
            data@.len() + 8 <= usize::MAX,
        ensures
            *final(self) == *old(self),
            wallet_signs(old(self)@, name@, sha256_of(aligned_pad(data@, padding)), r),
    {
        match self.name_to_key(name) {
            Err(e) => Err(e),
            Ok(key) => crate::signer::sign_bytes_with_padding(data, padding, &key),
        }
    }

    /// Hash already word-aligned data and sign the digest with the key
    /// stored under `name`; fails with `NotWordAligned` on misaligned data.
    pub fn sign_aligned_bytes(&mut self, data: &[u8], name: &str) -> (r: Result<Signature, Error>)
        requires
            old(self).wf(),
        ensures
            *final(self) == *old(self),
            wallet_signs_aligned(old(self)@, name@, data@, r),
    {
        match self.name_to_key(name) {
            Err(e) => Err(e),
            Ok(key) => crate::signer::sign_aligned_bytes(data, &key),
        }
    }

    /// Hash the data and sign the digest with the key stored under `name`,
    /// without checking word alignment.
    pub fn sign_bytes_unchecked(&mut self, data: &[u8], name: &str) -> (r: Result<Signature, Error>)
        requires
            old(self).wf(),
        ensures
            *final(self) == *old(self),
            wallet_signs(old(self)@, name@, sha256_of(data@), r),
    {
        match self.name_to_key(name) {
            Err(e) => Err(e),
            Ok(key) => crate::signer::sign_bytes_unchecked(data, &key),
        }
    }
}

} // verus!
