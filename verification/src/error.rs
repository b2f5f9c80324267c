//! Errors in the operation of the tracker, as opposed to drift
//! conditions discovered during verification, which are report
//! events, not errors.

use vstd::prelude::*;

verus! {

/// Declares `sled::Error`, the persistent substrate's error, as an
/// opaque type carried inside [`FimblError`].
#[verifier::external_type_specification]
#[verifier::external_body]
pub struct ExSledError(sled::Error);

/// Declares `std::io::Error`, the error of file access during
/// fingerprinting, as an opaque type carried inside [`FimblError`].
#[verifier::external_type_specification]
#[verifier::external_body]
pub struct ExIoError(std::io::Error);

/// Why an operation on the tracking store failed.
#[derive(Debug)]
pub enum FimblError {
    /// The underlying persistent substrate failed.
    DatabaseError(sled::Error),
    /// Stored bytes do not parse as a fingerprint record.
    FingerprintDeserializationError,
    /// A file could not be accessed for fingerprinting.
    FileAccessError(std::io::Error),
}

} // verus!
