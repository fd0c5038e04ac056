//! What can go wrong in the node's core operations.

use vstd::prelude::*;
use crate::hexcode::HexError;

verus! {

#[verifier::external_type_specification]
#[verifier::external_body]
pub struct ExJsonError(serde_json::Error);

#[verifier::external_type_specification]
#[verifier::external_body]
pub struct ExIoError(std::io::Error);

/// The errors of identities and envelopes.
#[derive(Debug)]
pub enum CoreError {
    /// Writing a field as JSON failed.
    Serde(serde_json::Error),
    /// A signature's text is no hexadecimal.
    Hex(HexError),
    /// A signature does not decode to 64 bytes.
    InvalidSignatureBytes,
    /// A signature does not match the message under the key.
    VerifyFailed,
    /// Reading or writing a stored identity failed.
    Io(std::io::Error),
    /// A stored signing key is not 32 bytes long.
    InvalidKeyLength,
}

} // verus!
