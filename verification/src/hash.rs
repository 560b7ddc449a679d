//! The fixed hash primitives of the canonicalization pipeline.
//!
//! Every signing entry point reduces its input to a 256-bit digest with one
//! of these two functions before the digest is handed to the signer.

use vstd::prelude::*;

use crate::codec::word_be_bytes;
use crate::codec::Word;

verus! {

/// The SHA-256 digest of a byte sequence: a function of the bytes alone.
pub uninterp spec fn sha256_of(data: Seq<u8>) -> Seq<u8>;

/// The big-endian bytes of a word sequence, concatenated in order.
pub open spec fn word_bytes_concat(ws: Seq<Word>) -> Seq<u8>
    decreases ws.len(),
{
    if ws.len() == 0 {
        Seq::empty()
    } else {
        word_bytes_concat(ws.drop_last()) + word_be_bytes(ws.last())
    }
}

/// Hash the data using SHA-256.
///
/// This neither pads the data nor checks that it is word aligned.
///
/// Relies on `sha2::Sha256` through the `Digest` trait: the result is the
/// 32-byte SHA-256 digest of the input, a function of the input alone.
#[verifier::external_body]
pub fn hash_bytes(data: &[u8]) -> (r: [u8; 32])
    ensures
        r@ == sha256_of(data@),
        r@.len() == 32,
{
    let mut hasher = <sha2::Sha256 as sha2::Digest>::new();
    sha2::Digest::update(&mut hasher, data);
    let out: [u8; 32] = sha2::Digest::finalize(hasher).into();
    out
}

/// Hash the words using SHA-256.
///
/// Relies on `essential_hash::hash_words`: it flattens each word to its
/// big-endian bytes, in order, and returns the 32-byte SHA-256 digest of the
/// flattened buffer.
#[verifier::external_body]
pub fn hash_words(data: &[Word]) -> (r: [u8; 32])
    ensures
        r@ == sha256_of(word_bytes_concat(data@)),
        r@.len() == 32,
{
    essential_hash::hash_words(data)
}

} // verus!
