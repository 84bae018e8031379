//! What the commands compute once their input has been read.
use vstd::prelude::*;

pub mod b64;
pub mod http_serve;
pub mod text;

verus! {

/// Why a computation on the commands' input fails.
#[derive(Clone, Copy, Debug, PartialEq, Eq, Structural)]
pub enum ProcessError {
    /// The text is not the Base64 encoding of any bytes.
    InvalidBase64,
    /// An Ed25519 signature is not 64 bytes long.
    InvalidSignatureLength,
    /// 32 bytes that are no Ed25519 public key.
    InvalidVerifyingKey,
    /// Bytes that are not UTF-8 text.
    InvalidUtf8,
    /// The operating system gave no random bytes.
    NoRandomness,
}

} // verus!
