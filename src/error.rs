//! The library's internal error kinds. The boundary collapses them all into
//! one failure code; they are kept apart here for callers that can use them.

use vstd::prelude::*;

verus! {

#[derive(Clone, Copy, Debug, PartialEq, Eq, Structural)]
pub enum ZkError {
    /// Bad hexadecimal text, or a key or signature of the wrong length.
    InputMalformed,
    /// The output would not fit the caller's buffer.
    BufferTooSmall,
    /// The signature is invalid, the credential is outside its validity
    /// window, or the identifier does not match the secret.
    PreconditionFailed,
    /// No key pair for the requested circuit is installed.
    KeyStateInvalid,
    /// The proof system failed during setup, proving or serialisation.
    CryptoOperationFailed,
}

} // verus!
