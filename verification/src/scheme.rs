//! The closed set of supported signature schemes.

use vstd::prelude::*;

use crate::error::Error;
use crate::util::string_of;

verus! {

/// Which signature scheme a key uses.
///
/// `Ed25519` is declared but unimplemented: every signing path that reaches
/// it fails with [`Error::NotSupported`].
#[derive(Clone, Copy, Debug, PartialEq, Eq, Structural)]
pub enum Scheme {
    /// The secp256k1 signature scheme.
    Secp256k1,
    /// The ed25519 signature scheme.
    Ed25519,
}

/// The stable tag under which a scheme is persisted.
pub open spec fn scheme_tag(s: Scheme) -> Seq<char> {
    match s {
        Scheme::Secp256k1 => "secp256k1"@,
        Scheme::Ed25519 => "ed25519"@,
    }
}

impl Scheme {
    /// The stable string representation, used as the persisted tag.
    pub fn tag(&self) -> (r: String)
        ensures
            r@ == scheme_tag(*self),
    {
        match self {
            Scheme::Secp256k1 => string_of("secp256k1"),
            Scheme::Ed25519 => string_of("ed25519"),
        }
    }

    /// Parse a persisted tag; an unknown tag fails with `UnknownScheme`.
    pub fn from_str(s: &str) -> (r: Result<Scheme, Error>)
        ensures
            s@ == "secp256k1"@ ==> r == Ok::<Scheme, Error>(Scheme::Secp256k1),
            s@ == "ed25519"@ ==> r == Ok::<Scheme, Error>(Scheme::Ed25519),
            s@ != "secp256k1"@ && s@ != "ed25519"@ ==> r == Err::<Scheme, Error>(
                Error::UnknownScheme,
            ),
    {
        proof {
            reveal_strlit("secp256k1");
            reveal_strlit("ed25519");
            assert("secp256k1"@.len() == 9);
            assert("ed25519"@.len() == 7);
            assert("secp256k1"@ != "ed25519"@);
        }
        let t = string_of(s);
        if t == string_of("secp256k1") {
            Ok(Scheme::Secp256k1)
        } else if t == string_of("ed25519") {
            Ok(Scheme::Ed25519)
        } else {
            Err(Error::UnknownScheme)
        }
    }
}

} // verus!
