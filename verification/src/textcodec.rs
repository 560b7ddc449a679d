//! Text codecs for presenting binary data at the program boundary.
//!
//! This is a pure codec boundary: each encoding is an outside collaborator,
//! and the library only routes bytes through it.

use base64::Engine;
use vstd::prelude::*;

use crate::error::Error;

verus! {

/// The encoding to use when decoding or encoding a string.
#[derive(Clone, Copy, Debug, PartialEq, Eq, Structural)]
pub enum Encoding {
    /// The data is written as a json string of bytes, for example
    /// `"[104, 22, 33]"`. Not compact, but easy to write by hand.
    Bytes,
    /// Hexadecimal encoding.
    Hex,
    /// Standard base64 encoding.
    Base64,
    /// Base64 with URL-safe characters and no padding characters; this says
    /// nothing about word alignment.
    Base64UrlNoPad,
}

/// The hexadecimal text for a byte string.
pub uninterp spec fn hex_of(data: Seq<u8>) -> Seq<char>;

/// The bytes a hexadecimal text stands for, or `None` when it is not valid
/// hexadecimal.
pub uninterp spec fn hex_decoded(text: Seq<char>) -> Option<Seq<u8>>;

/// The standard base64 text for a byte string.
pub uninterp spec fn base64_of(data: Seq<u8>) -> Seq<char>;

/// The bytes a standard base64 text stands for, or `None` when it is not
/// valid base64.
pub uninterp spec fn base64_decoded(text: Seq<char>) -> Option<Seq<u8>>;

/// The URL-safe, unpadded base64 text for a byte string.
pub uninterp spec fn base64url_of(data: Seq<u8>) -> Seq<char>;

/// The bytes a URL-safe, unpadded base64 text stands for, or `None` when it
/// is not valid under that alphabet.
pub uninterp spec fn base64url_decoded(text: Seq<char>) -> Option<Seq<u8>>;

/// The json array-of-numbers text for a byte string.
pub uninterp spec fn json_bytes_of(data: Seq<u8>) -> Seq<char>;

/// The bytes a json array-of-numbers text stands for, or `None` when the
/// text is not such an array.
pub uninterp spec fn json_bytes_decoded(text: Seq<char>) -> Option<Seq<u8>>;

/// Relies on `hex::encode`: two lowercase hex digits per input byte, a
/// function of the bytes alone.
#[verifier::external_body]
fn hex_encode(data: &[u8]) -> (r: String)
    ensures
        r@ == hex_of(data@),
        r@.len() == 2 * data@.len(),
{
    hex::encode(data)
}

/// Relies on `hex::decode`: inverts `hex::encode`, failing exactly on text
/// that is not an even-length string of hex digits.
#[verifier::external_body]
fn hex_decode(text: &str) -> (r: Option<Vec<u8>>)
    ensures
        (r is Some) == (hex_decoded(text@) is Some),
        r matches Some(v) ==> hex_decoded(text@) == Some(v@),
{
    hex::decode(text).ok()
}

/// Relies on `base64::engine::general_purpose::STANDARD.encode`: standard
/// alphabet with padding, a function of the bytes alone.
#[verifier::external_body]
fn base64_encode(data: &[u8]) -> (r: String)
    ensures
        r@ == base64_of(data@),
{
    base64::engine::general_purpose::STANDARD.encode(data)
}

/// Relies on `base64::engine::general_purpose::STANDARD.decode`: fails
/// exactly on text that is not valid padded standard base64.
#[verifier::external_body]
fn base64_decode(text: &str) -> (r: Option<Vec<u8>>)
    ensures
        (r is Some) == (base64_decoded(text@) is Some),
        r matches Some(v) ==> base64_decoded(text@) == Some(v@),
{
    base64::engine::general_purpose::STANDARD.decode(text.as_bytes()).ok()
}

/// Relies on `base64::engine::general_purpose::URL_SAFE_NO_PAD.encode`:
/// URL-safe alphabet without padding, a function of the bytes alone.
#[verifier::external_body]
fn base64url_encode(data: &[u8]) -> (r: String)
    ensures
        r@ == base64url_of(data@),
{
    base64::engine::general_purpose::URL_SAFE_NO_PAD.encode(data)
}

/// Relies on `base64::engine::general_purpose::URL_SAFE_NO_PAD.decode`:
/// fails exactly on text that is not valid unpadded URL-safe base64.
#[verifier::external_body]
fn base64url_decode(text: &str) -> (r: Option<Vec<u8>>)
    ensures
        (r is Some) == (base64url_decoded(text@) is Some),
        r matches Some(v) ==> base64url_decoded(text@) == Some(v@),
{
    base64::engine::general_purpose::URL_SAFE_NO_PAD.decode(text.as_bytes()).ok()
}

/// Relies on `serde_json::to_string` on a byte slice: a json array of
/// numbers, a function of the bytes alone; serializing a byte slice never
/// fails.
#[verifier::external_body]
fn json_bytes_encode(data: &[u8]) -> (r: String)
    ensures
        r@ == json_bytes_of(data@),
{
    serde_json::to_string(data).expect("serializing a byte slice to json cannot fail")
}

/// Relies on `serde_json::from_str::<Vec<u8>>`: parses a json array of
/// numbers in 0..=255, failing exactly on any other text.
#[verifier::external_body]
fn json_bytes_decode(text: &str) -> (r: Option<Vec<u8>>)
    ensures
        (r is Some) == (json_bytes_decoded(text@) is Some),
        r matches Some(v) ==> json_bytes_decoded(text@) == Some(v@),
{
    serde_json::from_str::<Vec<u8>>(text).ok()
}

/// The text the chosen encoding produces for a byte string.
pub open spec fn encoded_text(data: Seq<u8>, encoding: Encoding) -> Seq<char> {
    match encoding {
        Encoding::Bytes => json_bytes_of(data),
        Encoding::Hex => hex_of(data),
        Encoding::Base64 => base64_of(data),
        Encoding::Base64UrlNoPad => base64url_of(data),
    }
}

/// The bytes a text stands for under the chosen encoding, or `None` when it
/// is not valid under it.
pub open spec fn decoded_text(text: Seq<char>, encoding: Encoding) -> Option<Seq<u8>> {
    match encoding {
        Encoding::Bytes => json_bytes_decoded(text),
        Encoding::Hex => hex_decoded(text),
        Encoding::Base64 => base64_decoded(text),
        Encoding::Base64UrlNoPad => base64url_decoded(text),
    }
}

/// Encode a vector of bytes into a string using the given encoding.
pub fn encode_str(data: Vec<u8>, encoding: Encoding) -> (r: String)
    ensures
        r@ == encoded_text(data@, encoding),
{
    match encoding {
        Encoding::Bytes => json_bytes_encode(data.as_slice()),
        Encoding::Hex => hex_encode(data.as_slice()),
        Encoding::Base64 => base64_encode(data.as_slice()),
        Encoding::Base64UrlNoPad => base64url_encode(data.as_slice()),
    }
}

/// Decode a string into a vector of bytes using the given encoding.
///
/// Fails with `InvalidEncoding` exactly when the text is not valid under
/// the given encoding.
pub fn decode_str(data: String, encoding: Encoding) -> (r: Result<Vec<u8>, Error>)
    ensures
        (r is Ok) == (decoded_text(data@, encoding) is Some),
        r matches Ok(v) ==> decoded_text(data@, encoding) == Some(v@),
        r is Err ==> r == Err::<Vec<u8>, Error>(Error::InvalidEncoding),
{
    let out = match encoding {
        Encoding::Bytes => json_bytes_decode(data.as_str()),
        Encoding::Hex => hex_decode(data.as_str()),
        Encoding::Base64 => base64_decode(data.as_str()),
        Encoding::Base64UrlNoPad => base64url_decode(data.as_str()),
    };
    match out {
        Some(v) => Ok(v),
        None => Err(Error::InvalidEncoding),
    }
}

} // verus!
