//! Verified core of `rcli`, a command-line toolbox: Base64 encoding and
//! decoding, signing and verifying text with BLAKE3 or Ed25519 keys, key
//! generation, the checks that the command line applies to its arguments,
//! and the replies of the file server.
use vstd::prelude::*;

pub mod cli;
pub mod crypto;
pub mod encoding;
pub mod paths;
pub mod process;
pub mod text_util;

pub use crate::cli::base64::{Base64DecodeOpts, Base64EncodeOpts, Base64Format, Base64SubCommand};
pub use crate::cli::text::{
    TextKeyGenerateOpts, TextSignFormat, TextSignOpts, TextSubCommand, TextVerifyOpts,
};
pub use crate::cli::{CliError, Opts, SubCommand};
pub use crate::process::b64::{process_decode, process_encode};
pub use crate::process::http_serve::file_reply;
pub use crate::process::text::{
    process_text_generate, process_text_sign, process_text_verify, Blake3, Ed25519Signer,
    Ed25519Verifier, KeyGenerator, KeyLoader, TextSign, TextVerify,
};
pub use crate::process::ProcessError;

verus! {

} // verus!
