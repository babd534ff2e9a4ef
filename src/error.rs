use vstd::prelude::*;

verus! {

/// The ways in which a vault operation can fail.
#[derive(Clone, Copy, Debug, PartialEq, Eq, Structural)]
pub enum StashError {
    /// The vault, a file in it, or a secret is absent.
    NotFound,
    /// The destination of a move or copy is already taken.
    AlreadyExists,
    /// The request is not allowed: a directory given for a file, an
    /// operation refused in the current archive state, or a reserved name.
    InvalidInput,
    /// A stored secret blob does not have the length of a secret.
    CorruptSecret,
    /// A sealed buffer did not authenticate under the given secret.
    AuthenticationFailed,
    /// The cipher refused to seal a buffer.
    CryptoError,
    /// The secret store, the session cache or the filesystem failed.
    IoError,
    /// An archiving or listing tool failed.
    ExternalToolFailure,
}

} // verus!
