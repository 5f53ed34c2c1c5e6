use vstd::prelude::*;

verus! {

/// Why a keystore operation failed.
///
/// A wrong password and a corrupted file both come out as `IntegrityFailure`:
/// the two are deliberately not told apart.
#[derive(Debug, Clone, Copy, PartialEq, Eq, Structural)]
pub enum KeystoreError {
    /// The key-derivation or cipher parameters cannot be used.
    InvalidParameters,
    /// A file is already present where a new keystore would go.
    AlreadyExists,
    /// No keystore file under the given name.
    NotFound,
    /// The file is present but is no well-formed keystore record.
    MalformedKeystore,
    /// Wrong password, or tampered or corrupted contents.
    IntegrityFailure,
    /// The operating system refused a read or a write.
    Io,
}

} // verus!
