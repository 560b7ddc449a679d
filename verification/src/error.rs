use vstd::prelude::*;

verus! {

/// The error kinds surfaced by the signing pipeline and the key store.
///
/// Every fallible operation returns one of these, so a caller can tell
/// "retry with different input" apart from "this key truly does not exist"
/// and from "storage is broken".
#[derive(Clone, Copy, Debug, PartialEq, Eq, Structural)]
pub enum Error {
    /// No record is stored under the requested name.
    NameNotFound,
    /// A record is already stored under the name given to an insert.
    NameAlreadyExists,
    /// The input's byte length is not a multiple of the word size.
    NotWordAligned,
    /// A persisted scheme tag does not name a known scheme.
    UnknownScheme,
    /// The operation reached a declared but unimplemented scheme path.
    NotSupported,
    /// The backend could not decrypt its data with the supplied password.
    IncorrectPassword,
    /// The underlying storage backend failed.
    BackendIO,
    /// Metadata and secret backends disagree about a record.
    Inconsistent,
    /// Text input is not valid under the requested encoding.
    InvalidEncoding,
}

} // verus!
