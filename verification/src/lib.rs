//! Named-key signing library.
//!
//! The crate covers a hash-then-sign pipeline over a word-alignment codec,
//! scheme-dispatched signing and public-key derivation, signature
//! serialization in an aligned and a compact form, text codecs for the
//! program boundary, and a named-key store that keeps secret bytes and their
//! scheme metadata consistent across one or two independently failing
//! backends.

pub mod codec;
pub mod error;
pub mod hash;
pub mod keys;
pub mod kv;
pub mod scheme;
pub mod sigcodec;
pub mod signer;
pub mod store;
pub mod textcodec;
pub mod util;
pub mod wallet;

pub use codec::align_to_word;
pub use codec::into_words;
pub use codec::is_word_aligned;
pub use codec::pad_bytes;
pub use codec::Padding;
pub use codec::Word;
pub use error::Error;
pub use hash::hash_bytes;
pub use hash::hash_words;
pub use keys::Key;
pub use keys::PublicKey;
pub use keys::SecpSecretKey;
pub use keys::SecpSignature;
pub use keys::Signature;
pub use scheme::Scheme;
pub use sigcodec::decode;
pub use sigcodec::encode;
pub use sigcodec::public_key_to_words;
pub use sigcodec::signature_to_aligned_bytes;
pub use sigcodec::signature_to_bytes;
pub use sigcodec::signature_to_words;
pub use sigcodec::SignatureForm;
pub use signer::public_key;
pub use signer::sign_aligned_bytes;
pub use signer::sign_bytes_unchecked;
pub use signer::sign_bytes_with_padding;
pub use signer::sign_hash;
pub use signer::sign_words;
pub use signer::verify;
pub use textcodec::decode_str;
pub use textcodec::encode_str;
pub use textcodec::Encoding;
pub use wallet::Wallet;
