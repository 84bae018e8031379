//! The cryptographic primitives that signing relies on: BLAKE3 keyed hashing
//! from the `blake3` crate, Ed25519 from `ed25519-dalek`, and randomness from
//! the operating system through `rand_core`.
//!
//! These results take pages to state, so each is given a name. The names are
//! functions of their arguments alone; beyond that, the wrappers state only
//! the facts that the libraries document: a signature made with a secret key
//! verifies under the public key derived from it, and such a public key is
//! always a valid curve point encoding.
use vstd::prelude::*;

verus! {

/// The 32-byte BLAKE3 keyed hash of `data` under `key`.
pub uninterp spec fn blake3_keyed_hash(key: Seq<u8>, data: Seq<u8>) -> Seq<u8>;

/// The 64-byte Ed25519 signature of `msg` made with the 32-byte secret key
/// `secret` (RFC 8032 signatures are deterministic).
pub uninterp spec fn ed25519_signature(secret: Seq<u8>, msg: Seq<u8>) -> Seq<u8>;

/// The 32-byte Ed25519 public key that belongs to the secret key `secret`.
pub uninterp spec fn ed25519_public_key(secret: Seq<u8>) -> Seq<u8>;

/// Whether 32 bytes are the compressed encoding of a curve point, as an
/// Ed25519 public key must be.
pub uninterp spec fn ed25519_key_decodes(public: Seq<u8>) -> bool;

/// Whether `sig` is a valid Ed25519 signature of `msg` under the public key
/// `public`.
pub uninterp spec fn ed25519_verifies(public: Seq<u8>, msg: Seq<u8>, sig: Seq<u8>) -> bool;

/// Whether `public` is the public key of some 32-byte secret key.
pub open spec fn is_public_key_of_some_secret(public: Seq<u8>) -> bool {
    exists|secret: Seq<u8>| secret.len() == 32 && public == #[trigger] ed25519_public_key(secret)
}

/// Whether `sig` is a 64-byte signature made, for `msg`, with a secret key
/// whose public key is `public`.
pub open spec fn is_honest_signature(public: Seq<u8>, msg: Seq<u8>, sig: Seq<u8>) -> bool {
    exists|secret: Seq<u8>|
        secret.len() == 32 && public == #[trigger] ed25519_public_key(secret) && sig
            == ed25519_signature(secret, msg) && sig.len() == 64
}

/// Calls `blake3::keyed_hash`. Trusted: the result is the named keyed hash of
/// `data` under `key`.
#[verifier::external_body]
pub(crate) fn keyed_hash(key: &[u8; 32], data: &[u8]) -> (res: [u8; 32])
    ensures
        res@ == blake3_keyed_hash(key@, data@),
{
    *blake3::keyed_hash(key, data).as_bytes()
}

/// Calls `Signer::sign` of `ed25519_dalek::SigningKey` on the key made from
/// the secret bytes by `SigningKey::from_bytes`, and returns the signature's
/// bytes. Trusted: the result is the named signature of `msg` under `secret`.
#[verifier::external_body]
pub(crate) fn ed25519_sign(secret: &[u8; 32], msg: &[u8]) -> (res: [u8; 64])
    ensures
        res@ == ed25519_signature(secret@, msg@),
{
    ed25519_dalek::Signer::sign(&ed25519_dalek::SigningKey::from_bytes(secret), msg).to_bytes()
}

/// Calls `ed25519_dalek::VerifyingKey::from_bytes` and reports whether it
/// succeeded. Trusted: the answer is the named predicate, and it holds for
/// every public key that was derived from a secret key (such a key is the
/// compression of a curve point, which decompresses again).
#[verifier::external_body]
pub(crate) fn ed25519_check_public_key(public: &[u8; 32]) -> (res: bool)
    ensures
        res == ed25519_key_decodes(public@),
        is_public_key_of_some_secret(public@) ==> res,
{
    ed25519_dalek::VerifyingKey::from_bytes(public).is_ok()
}

/// Calls `Verifier::verify` of `ed25519_dalek::VerifyingKey` on the key that
/// `VerifyingKey::from_bytes` makes of `public` (answering `false` when that
/// fails) and the signature that `Signature::from_bytes` makes of `sig`.
/// Trusted: the answer is the named predicate, and it holds for a signature
/// made with the secret key that `public` belongs to.
#[verifier::external_body]
pub(crate) fn ed25519_verify(public: &[u8; 32], msg: &[u8], sig: &[u8; 64]) -> (res: bool)
    ensures
        res == ed25519_verifies(public@, msg@, sig@),
        is_honest_signature(public@, msg@, sig@) ==> res,
{
    match ed25519_dalek::VerifyingKey::from_bytes(public) {
        Ok(key) => ed25519_dalek::Verifier::verify(&key, msg, &ed25519_dalek::Signature::from_bytes(sig)).is_ok(),
        Err(_) => false,
    }
}

/// Calls `SigningKey::from_bytes` of `ed25519_dalek` on the secret key and
/// returns the bytes of its `verifying_key`. Trusted: the result is the named
/// public key of `secret`.
#[verifier::external_body]
pub(crate) fn ed25519_public_key_of(secret: &[u8; 32]) -> (res: [u8; 32])
    ensures
        res@ == ed25519_public_key(secret@),
{
    ed25519_dalek::SigningKey::from_bytes(secret).verifying_key().to_bytes()
}

/// Calls `RngCore::try_fill_bytes` of the operating system's random source
/// `rand_core::OsRng` on `buf`, and reports whether it succeeded (it fails
/// when the operating system has no randomness to give). The bytes are
/// random, so only their number is stated.
#[verifier::external_body]
pub(crate) fn try_fill_random(buf: &mut Vec<u8>) -> (res: bool)
    ensures
        final(buf)@.len() == old(buf)@.len(),
{
    rand_core::RngCore::try_fill_bytes(&mut rand_core::OsRng, buf.as_mut_slice()).is_ok()
}

} // verus!
