//! Signature and public-key serialization.
//!
//! Signatures have two byte encodings with different contracts: the
//! *aligned* form, a fixed scheme-specific layout whose length is always a
//! multiple of the word size, and the *compact* form, the minimal encoding
//! used for transport and display. Both round-trip: decoding with the
//! matching scheme and form reconstructs a signature equal to the original.

use vstd::prelude::*;

use crate::codec::word_be_bytes;
use crate::codec::Word;
use crate::error::Error;
use crate::keys::PublicKey;
use crate::keys::SecpSignature;
use crate::keys::Signature;
use crate::scheme::Scheme;
use crate::util::copy_arr;
use crate::util::push_bytes;

verus! {

/// Which of the two byte encodings of a signature to use.
#[derive(Clone, Copy, Debug, PartialEq, Eq, Structural)]
pub enum SignatureForm {
    /// The fixed word-aligned layout the downstream consumer expects.
    Aligned,
    /// The minimal encoding: no padding.
    Compact,
}

/// The compact encoding: for secp256k1 the 64 compact bytes followed by the
/// recovery id; for ed25519 the 64 signature bytes.
pub open spec fn encoded_compact(sig: Signature) -> Seq<u8> {
    match sig {
        Signature::Secp256k1(s) => s.bytes@ + seq![s.rec_id],
        Signature::Ed25519(b) => b@,
    }
}

/// A single byte spread into one big-endian word of bytes.
pub open spec fn byte_word_bytes(b: u8) -> Seq<u8> {
    seq![0u8, 0u8, 0u8, 0u8, 0u8, 0u8, 0u8, b]
}

/// The aligned encoding: for secp256k1 the 64 compact bytes followed by the
/// recovery id in its own big-endian word; for ed25519 the 64 signature
/// bytes, which are already aligned.
pub open spec fn encoded_aligned(sig: Signature) -> Seq<u8> {
    match sig {
        Signature::Secp256k1(s) => s.bytes@ + byte_word_bytes(s.rec_id),
        Signature::Ed25519(b) => b@,
    }
}

/// The chosen encoding of a signature.
pub open spec fn encoded(sig: Signature, form: SignatureForm) -> Seq<u8> {
    match form {
        SignatureForm::Aligned => encoded_aligned(sig),
        SignatureForm::Compact => encoded_compact(sig),
    }
}

/// Whether a byte string is a well-formed encoding for the scheme and form.
pub open spec fn valid_encoding(bytes: Seq<u8>, scheme: Scheme, form: SignatureForm) -> bool {
    match (scheme, form) {
        (Scheme::Secp256k1, SignatureForm::Compact) => bytes.len() == 65 && bytes[64] <= 3,
        (Scheme::Secp256k1, SignatureForm::Aligned) => bytes.len() == 72 && (forall|k: int|
            64 <= k < 71 ==> bytes[k] == 0) && bytes[71] <= 3,
        (Scheme::Ed25519, _) => bytes.len() == 64,
    }
}

/// Every well-formed signature encodes to a byte string that decodes again
/// under its own scheme and form.
pub proof fn lemma_encoded_decodable(sig: Signature, form: SignatureForm)
    requires
        sig.wf(),
    ensures
        valid_encoding(encoded(sig, form), sig.scheme(), form),
{
}

/// Within one scheme and form, the encoding is injective: equal encodings
/// come from equal signatures. Together with `lemma_encoded_decodable` and
/// the contract of `decode`, decoding an encoded signature with the matching
/// scheme and form yields the original signature, for both forms and both
/// schemes.
pub proof fn lemma_encoded_injective(a: Signature, b: Signature, form: SignatureForm)
    requires
        a.wf(),
        b.wf(),
        a.scheme() == b.scheme(),
        encoded(a, form) == encoded(b, form),
    ensures
        a == b,
{
    match (a, b) {
        (Signature::Secp256k1(sa), Signature::Secp256k1(sb)) => {
            let ea = encoded(a, form);
            let eb = encoded(b, form);
            let ta = match form {
                SignatureForm::Compact => seq![sa.rec_id],
                SignatureForm::Aligned => byte_word_bytes(sa.rec_id),
            };
            let tb = match form {
                SignatureForm::Compact => seq![sb.rec_id],
                SignatureForm::Aligned => byte_word_bytes(sb.rec_id),
            };
            assert(ea == sa.bytes@ + ta);
            assert(eb == sb.bytes@ + tb);
            assert forall|i: int| 0 <= i < 64 implies sa.bytes@[i] == sb.bytes@[i] by {
                assert(ea[i] == sa.bytes@[i]);
                assert(eb[i] == sb.bytes@[i]);
            }
            assert(sa.bytes =~= sb.bytes);
            match form {
                SignatureForm::Compact => {
                    assert(ea[64] == sa.rec_id);
                    assert(eb[64] == sb.rec_id);
                }
                SignatureForm::Aligned => {
                    assert(ea[71] == sa.rec_id);
                    assert(eb[71] == sb.rec_id);
                }
            }
        }
        (Signature::Ed25519(ba), Signature::Ed25519(bb)) => {
            assert(ba =~= bb);
        }
        _ => {}
    }
}

/// Turn any supported signature into bytes.
///
/// This is the compact form and is **not** padded to be word aligned: 65
/// bytes for secp256k1, 64 for ed25519.
pub fn signature_to_bytes(sig: &Signature) -> (r: Vec<u8>)
    ensures
        r@ == encoded_compact(*sig),
        sig is Secp256k1 ==> r@.len() == 65,
        sig is Ed25519 ==> r@.len() == 64,
{
    let mut out: Vec<u8> = Vec::new();
    match sig {
        Signature::Secp256k1(s) => {
            push_bytes(&mut out, s.bytes.as_slice());
            out.push(s.rec_id);
            proof {
                assert(out@ =~= encoded_compact(*sig));
            }
        }
        Signature::Ed25519(b) => {
            push_bytes(&mut out, b.as_slice());
            proof {
                assert(out@ =~= encoded_compact(*sig));
            }
        }
    }
    out
}

/// Turn any supported signature into bytes that are padded to be word
/// aligned, in the layout the downstream consumer expects: 72 bytes for
/// secp256k1, 64 for ed25519.
pub fn signature_to_aligned_bytes(sig: &Signature) -> (r: Vec<u8>)
    ensures
        r@ == encoded_aligned(*sig),
        r@.len() % 8 == 0,
        sig is Secp256k1 ==> r@.len() == 72,
        sig is Ed25519 ==> r@.len() == 64,
{
    let mut out: Vec<u8> = Vec::new();
    match sig {
        Signature::Secp256k1(s) => {
            push_bytes(&mut out, s.bytes.as_slice());
            let tail: [u8; 8] = [0, 0, 0, 0, 0, 0, 0, s.rec_id];
            push_bytes(&mut out, tail.as_slice());
            proof {
                assert(tail@ =~= byte_word_bytes(s.rec_id));
                assert(out@ =~= encoded_aligned(*sig));
            }
        }
        Signature::Ed25519(b) => {
            push_bytes(&mut out, b.as_slice());
            proof {
                assert(out@ =~= encoded_aligned(*sig));
            }
        }
    }
    out
}

/// Serialize a signature in the chosen form.
pub fn encode(sig: &Signature, form: SignatureForm) -> (r: Vec<u8>)
    ensures
        r@ == encoded(*sig, form),
{
    match form {
        SignatureForm::Aligned => signature_to_aligned_bytes(sig),
        SignatureForm::Compact => signature_to_bytes(sig),
    }
}

/// Parse a signature from bytes serialized in the chosen form.
///
/// Returns `None` exactly when the bytes are not a well-formed encoding for
/// the scheme and form.
pub fn decode(bytes: &[u8], scheme: Scheme, form: SignatureForm) -> (r: Option<Signature>)
    ensures
        (r is Some) == valid_encoding(bytes@, scheme, form),
        r matches Some(sig) ==> sig.wf() && sig.scheme() == scheme && encoded(sig, form) == bytes@,
{
    match (scheme, form) {
        (Scheme::Secp256k1, SignatureForm::Compact) => {
            if bytes.len() != 65 {
                return None;
            }
            let rec_id = bytes[64];
            if rec_id > 3 {
                return None;
            }
            let arr: [u8; 64] = copy_arr(bytes, 0);
            let sig = Signature::Secp256k1(SecpSignature { bytes: arr, rec_id });
            proof {
                assert(encoded(sig, form) =~= bytes@);
            }
            Some(sig)
        }
        (Scheme::Secp256k1, SignatureForm::Aligned) => {
            if bytes.len() != 72 {
                return None;
            }
            let mut k: usize = 64;
            while k < 71
                invariant
                    64 <= k <= 71,
                    bytes@.len() == 72,
                    forall|j: int| 64 <= j < k ==> bytes@[j] == 0,
                decreases 71 - k,
            {
                if bytes[k] != 0 {
                    return None;
                }
                k = k + 1;
            }
            let rec_id = bytes[71];
            if rec_id > 3 {
                return None;
            }
            let arr: [u8; 64] = copy_arr(bytes, 0);
            let sig = Signature::Secp256k1(SecpSignature { bytes: arr, rec_id });
            proof {
                assert(encoded(sig, form) =~= bytes@);
            }
            Some(sig)
        }
        (Scheme::Ed25519, _) => {
            if bytes.len() != 64 {
                return None;
            }
            let arr: [u8; 64] = copy_arr(bytes, 0);
            let sig = Signature::Ed25519(arr);
            proof {
                assert(encoded(sig, form) =~= bytes@);
            }
            Some(sig)
        }
    }
}

/// Turn any supported signature into words: the 8 words of the compact
/// bytes followed by the recovery id in a word of its own.
///
/// The ed25519 path is unimplemented and fails with `NotSupported`.
pub fn signature_to_words(sig: &Signature) -> (r: Result<Vec<Word>, Error>)
    ensures
        sig matches Signature::Secp256k1(s) ==> ({
            &&& r matches Ok(ws)
            &&& ws@.len() == 9
            &&& forall|i: int|
                0 <= i < 9 ==> word_be_bytes(ws@[i]) == encoded_aligned(*sig).subrange(
                    8 * i,
                    8 * i + 8,
                )
        }),
        sig is Ed25519 ==> r == Err::<Vec<Word>, Error>(Error::NotSupported),
{
    match sig {
        Signature::Secp256k1(s) => {
            let aligned = signature_to_aligned_bytes(sig);
            let words = crate::codec::into_words(aligned, crate::codec::Padding::End);
            proof {
                assert(crate::codec::aligned_pad(encoded_aligned(*sig), crate::codec::Padding::End)
                    == encoded_aligned(*sig));
            }
            Ok(words)
        }
        Signature::Ed25519(_) => Err(Error::NotSupported),
    }
}

/// Turn any supported public key into words, in the layout the downstream
/// consumer expects: for secp256k1 the 33 compressed bytes become 4 words
/// and a final word holding the last byte; for ed25519 the 32 bytes become
/// 4 words.
pub fn public_key_to_words(key: &PublicKey) -> (r: Vec<Word>)
    ensures
        key matches PublicKey::Secp256k1(pk) ==> ({
            &&& r@.len() == 5
            &&& forall|i: int|
                0 <= i < 4 ==> word_be_bytes(r@[i]) == pk@.subrange(8 * i, 8 * i + 8)
            &&& word_be_bytes(r@[4]) == byte_word_bytes(pk@[32])
        }),
        key matches PublicKey::Ed25519(pk) ==> ({
            &&& r@.len() == 4
            &&& forall|i: int|
                0 <= i < 4 ==> word_be_bytes(r@[i]) == pk@.subrange(8 * i, 8 * i + 8)
        }),
{
    match key {
        PublicKey::Secp256k1(pk) => {
            let mut head: Vec<u8> = Vec::new();
            push_bytes(&mut head, pk.as_slice());
            let last = head.pop().unwrap();
            proof {
                assert(head@ =~= pk@.subrange(0, 32));
            }
            let mut words = crate::codec::into_words(head, crate::codec::Padding::End);
            proof {
                assert(crate::codec::aligned_pad(pk@.subrange(0, 32), crate::codec::Padding::End)
                    == pk@.subrange(0, 32));
            }
            let tail: [u8; 8] = [0, 0, 0, 0, 0, 0, 0, last];
            let last_word = crate::codec::word_from_be_bytes(&tail);
            proof {
                assert(tail@ =~= byte_word_bytes(pk@[32]));
            }
            words.push(last_word);
            proof {
                assert forall|i: int| 0 <= i < 4 implies word_be_bytes(words@[i]) == pk@.subrange(
                    8 * i,
                    8 * i + 8,
                ) by {
                    assert(word_be_bytes(words@[i]) == pk@.subrange(0, 32).subrange(
                        8 * i,
                        8 * i + 8,
                    ));
                    assert(pk@.subrange(0, 32).subrange(8 * i, 8 * i + 8) =~= pk@.subrange(
                        8 * i,
                        8 * i + 8,
                    ));
                }
            }
            words
        }
        PublicKey::Ed25519(pk) => {
            let mut head: Vec<u8> = Vec::new();
            push_bytes(&mut head, pk.as_slice());
            let words = crate::codec::into_words(head, crate::codec::Padding::End);
            proof {
                assert(crate::codec::aligned_pad(pk@, crate::codec::Padding::End) == pk@);
                assert forall|i: int| 0 <= i < 4 implies word_be_bytes(words@[i]) == pk@.subrange(
                    8 * i,
                    8 * i + 8,
                ) by {}
            }
            words
        }
    }
}

} // verus!
