//! `text sign`, `text verify` and `text generate`: signing a text with a
//! keyed BLAKE3 hash or an Ed25519 signature, checking such a signature, and
//! making new keys.
//!
//! A key is read from the first 32 bytes of a key file; signatures travel as
//! URL-safe Base64 without padding.
use vstd::prelude::*;
use vstd::utf8::encode_utf8;

use crate::cli::text::TextSignFormat;
use crate::crypto::{
    blake3_keyed_hash, ed25519_check_public_key, ed25519_key_decodes, ed25519_public_key_of,
    ed25519_public_key, ed25519_sign, ed25519_signature, ed25519_verifies, ed25519_verify,
    is_honest_signature, keyed_hash, try_fill_random,
};
use crate::encoding::{
    ascii_text, base64_decode, base64_encode, decoded, encoded, lemma_decoded_is,
    lemma_encoded_len_bound, lemma_encoded_text_bytes, Base64Variant,
};
use crate::process::ProcessError;

verus! {

/// A BLAKE3 keyed-hash signer and verifier.
pub struct Blake3 {
    key: [u8; 32],
}

/// An Ed25519 signer, holding the 32-byte secret key.
pub struct Ed25519Signer {
    key: [u8; 32],
}

/// An Ed25519 verifier, holding the 32 bytes of a valid public key.
pub struct Ed25519Verifier {
    key: [u8; 32],
}

impl View for Blake3 {
    type V = Seq<u8>;

    /// The key.
    closed spec fn view(&self) -> Seq<u8> {
        self.key@
    }
}

impl View for Ed25519Signer {
    type V = Seq<u8>;

    /// The secret key.
    closed spec fn view(&self) -> Seq<u8> {
        self.key@
    }
}

impl View for Ed25519Verifier {
    type V = Seq<u8>;

    /// The public key.
    closed spec fn view(&self) -> Seq<u8> {
        self.key@
    }
}

impl Ed25519Verifier {
    /// The key of a verifier is always a valid public key.
    #[verifier::type_invariant]
    spec fn key_is_valid(self) -> bool {
        ed25519_key_decodes(self.key@)
    }
}

/// Signing a text.
pub trait TextSign {
    fn sign(&self, data: &[u8]) -> Result<Vec<u8>, ProcessError>;
}

/// Checking the signature of a text.
pub trait TextVerify {
    fn verify(&self, data: &[u8], sig: &[u8]) -> Result<bool, ProcessError>;
}

/// Making a signer or verifier from the bytes of a key file, of which the
/// first 32 are the key.
pub trait KeyLoader: Sized {
    fn load(key: &[u8]) -> (res: Result<Self, ProcessError>)
        requires
            key@.len() >= 32,
    ;
}

/// Making new keys, returned as the bytes of the files that hold them.
pub trait KeyGenerator {
    fn generate() -> Result<Vec<Vec<u8>>, ProcessError>;
}

/// The first 32 bytes of `bytes`.
fn first_32(bytes: &[u8]) -> (res: [u8; 32])
    requires
        bytes@.len() >= 32,
    ensures
        res@ == bytes@.take(32),
{
    let mut key = [0u8; 32];
    let mut i: usize = 0;
    while i < 32
        invariant
            i <= 32,
            bytes@.len() >= 32,
            forall|j: int| 0 <= j < i ==> key@[j] == bytes@[j],
        decreases 32 - i,
    {
        key[i] = bytes[i];
        i = i + 1;
    }
    assert(key@ =~= bytes@.take(32));
    key
}

/// A vector holding the bytes of `bytes`.
fn bytes_to_vec(bytes: &[u8]) -> (res: Vec<u8>)
    ensures
        res@ == bytes@,
{
    let mut v: Vec<u8> = Vec::new();
    let mut i: usize = 0;
    while i < bytes.len()
        invariant
            i <= bytes@.len(),
            v@ == bytes@.take(i as int),
        decreases bytes@.len() - i,
    {
        v.push(bytes[i]);
        i = i + 1;
        assert(v@ =~= bytes@.take(i as int));
    }
    assert(bytes@.take(bytes@.len() as int) =~= bytes@);
    v
}

impl Blake3 {
    pub fn new(key: [u8; 32]) -> (res: Self)
        ensures
            res@ == key@,
    {
        Self { key }
    }

    /// Takes the first 32 bytes of `key` as the key.
    pub fn try_new(key: &[u8]) -> (res: Result<Self, ProcessError>)
        requires
            key@.len() >= 32,
        ensures
            res matches Ok(signer) && signer@ == key@.take(32),
    {
        let key = first_32(key);
        Ok(Blake3::new(key))
    }
}

impl Ed25519Signer {
    pub fn new(key: [u8; 32]) -> (res: Self)
        ensures
            res@ == key@,
    {
        Ed25519Signer { key }
    }

    /// Takes the first 32 bytes of `key` as the secret key.
    pub fn try_new(key: &[u8]) -> (res: Result<Self, ProcessError>)
        requires
            key@.len() >= 32,
        ensures
            res matches Ok(signer) && signer@ == key@.take(32),
    {
        let key = first_32(key);
        Ok(Ed25519Signer::new(key))
    }
}

impl Ed25519Verifier {
    /// Takes the first 32 bytes of `key` as the public key; they must encode
    /// a curve point.
    pub fn try_new(key: &[u8]) -> (res: Result<Self, ProcessError>)
        requires
            key@.len() >= 32,
        ensures
            match res {
                Ok(verifier) => verifier@ == key@.take(32) && ed25519_key_decodes(verifier@),
                Err(e) => !ed25519_key_decodes(key@.take(32)) && e == ProcessError::InvalidVerifyingKey,
            },
            is_public_key_of_some_secret_32(key@) ==> res is Ok,
    {
        let key = first_32(key);
        if ed25519_check_public_key(&key) {
            Ok(Ed25519Verifier { key })
        } else {
            Err(ProcessError::InvalidVerifyingKey)
        }
    }
}

/// Whether the first 32 bytes of `key` are the public key of some secret key.
pub open spec fn is_public_key_of_some_secret_32(key: Seq<u8>) -> bool {
    crate::crypto::is_public_key_of_some_secret(key.take(32))
}

impl TextSign for Blake3 {
    /// The keyed BLAKE3 hash of `data`.
    fn sign(&self, data: &[u8]) -> (res: Result<Vec<u8>, ProcessError>)
        ensures
            res matches Ok(sig) && sig@ == blake3_keyed_hash(self@, data@) && sig@.len() == 32,
    {
        let hash = keyed_hash(&self.key, data);
        Ok(bytes_to_vec(&hash))
    }
}

impl TextVerify for Blake3 {
    /// Whether `sig` is the keyed BLAKE3 hash of `data`.
    fn verify(&self, data: &[u8], sig: &[u8]) -> (res: Result<bool, ProcessError>)
        ensures
            res == Ok::<bool, ProcessError>(sig@ == blake3_keyed_hash(self@, data@)),
    {
        let hash = keyed_hash(&self.key, data);
        if sig.len() != 32 {
            return Ok(false);
        }
        let mut i: usize = 0;
        while i < 32
            invariant
                i <= 32,
                sig@.len() == 32,
                hash@ == blake3_keyed_hash(self@, data@),
                forall|j: int| 0 <= j < i ==> hash@[j] == sig@[j],
            decreases 32 - i,
        {
            if hash[i] != sig[i] {
                return Ok(false);
            }
            i = i + 1;
        }
        assert(hash@ =~= sig@);
        Ok(true)
    }
}

impl TextSign for Ed25519Signer {
    /// The Ed25519 signature of `data`.
    fn sign(&self, data: &[u8]) -> (res: Result<Vec<u8>, ProcessError>)
        ensures
            res matches Ok(sig) && sig@ == ed25519_signature(self@, data@) && sig@.len() == 64,
    {
        let sig = ed25519_sign(&self.key, data);
        Ok(bytes_to_vec(&sig))
    }
}

impl TextVerify for Ed25519Verifier {
    /// Whether `sig` is a valid Ed25519 signature of `data`; fails when `sig`
    /// is not 64 bytes long.
    fn verify(&self, data: &[u8], sig: &[u8]) -> (res: Result<bool, ProcessError>)
        ensures
            sig@.len() != 64 ==> res == Err::<bool, ProcessError>(ProcessError::InvalidSignatureLength),
            sig@.len() == 64 ==> res == Ok::<bool, ProcessError>(ed25519_verifies(self@, data@, sig@)),
            is_honest_signature(self@, data@, sig@) ==> res == Ok::<bool, ProcessError>(true),
    {
        if sig.len() != 64 {
            return Err(ProcessError::InvalidSignatureLength);
        }
        let mut bytes = [0u8; 64];
        let mut i: usize = 0;
        while i < 64
            invariant
                i <= 64,
                sig@.len() == 64,
                forall|j: int| 0 <= j < i ==> bytes@[j] == sig@[j],
            decreases 64 - i,
        {
            bytes[i] = sig[i];
            i = i + 1;
        }
        assert(bytes@ =~= sig@);
        Ok(ed25519_verify(&self.key, data, &bytes))
    }
}

impl KeyLoader for Blake3 {
    fn load(key: &[u8]) -> (res: Result<Self, ProcessError>)
        ensures
            res matches Ok(signer) && signer@ == key@.take(32),
    {
        Blake3::try_new(key)
    }
}

impl KeyLoader for Ed25519Signer {
    fn load(key: &[u8]) -> (res: Result<Self, ProcessError>)
        ensures
            res matches Ok(signer) && signer@ == key@.take(32),
    {
        Ed25519Signer::try_new(key)
    }
}

impl KeyLoader for Ed25519Verifier {
    fn load(key: &[u8]) -> (res: Result<Self, ProcessError>)
        ensures
            match res {
                Ok(verifier) => verifier@ == key@.take(32) && ed25519_key_decodes(verifier@),
                Err(e) => !ed25519_key_decodes(key@.take(32)) && e == ProcessError::InvalidVerifyingKey,
            },
            is_public_key_of_some_secret_32(key@) ==> res is Ok,
    {
        Ed25519Verifier::try_new(key)
    }
}

/// The characters of which a generated BLAKE3 key is made.
pub open spec fn key_chars() -> Seq<char> {
    "ABCDEFGHJKLMNPQRSTUVWXYZabcdefghijkmnopqrstuvwxyz123456789!@#$%^&*_"@
}

/// Whether `b` is the byte of one of the key characters.
pub open spec fn is_key_byte(b: u8) -> bool {
    exists|i: int| 0 <= i < key_chars().len() && b == #[trigger] key_chars()[i] as u8
}

/// The key text made of random draws: the draw `r` picks the key character
/// at `r` modulo the number of key characters.
pub open spec fn key_text_of(draws: Seq<u32>) -> Seq<u8> {
    Seq::new(draws.len(), |j: int| key_chars()[(draws[j] as int) % (key_chars().len() as int)] as u8)
}

/// Whether `key` is the key text of some `len` random draws.
pub open spec fn is_key_text_of_draws(key: Seq<u8>, len: nat) -> bool {
    exists|draws: Seq<u32>| draws.len() == len && key == #[trigger] key_text_of(draws)
}

/// The key text that the random draws `draws` pick.
pub fn key_text_from_draws(draws: &[u32]) -> (res: Vec<u8>)
    ensures
        res@.len() == draws@.len(),
        forall|j: int|
            0 <= j < draws@.len() ==> res@[j] == key_chars()[(draws@[j] as int)
                % (key_chars().len() as int)] as u8,
        res@ == key_text_of(draws@),
        forall|j: int| 0 <= j < draws@.len() ==> is_key_byte(#[trigger] res@[j]),
{
    let alphabet = "ABCDEFGHJKLMNPQRSTUVWXYZabcdefghijkmnopqrstuvwxyz123456789!@#$%^&*_";
    proof {
        reveal_strlit("ABCDEFGHJKLMNPQRSTUVWXYZabcdefghijkmnopqrstuvwxyz123456789!@#$%^&*_");
    }
    let n: usize = alphabet.unicode_len();
    let mut key: Vec<u8> = Vec::new();
    let mut i: usize = 0;
    while i < draws.len()
        invariant
            i <= draws@.len(),
            n == key_chars().len(),
            n > 0,
            alphabet@ == key_chars(),
            key@.len() == i,
            forall|j: int|
                0 <= j < i ==> key@[j] == key_chars()[(draws@[j] as int) % (key_chars().len() as int)] as u8,
            forall|j: int| 0 <= j < i ==> is_key_byte(#[trigger] key@[j]),
        decreases draws@.len() - i,
    {
        let index: usize = (draws[i] as usize) % n;
        let c: char = alphabet.get_char(index);
        let b: u8 = c as u8;
        assert(b == key_chars()[index as int] as u8);
        key.push(b);
        i = i + 1;
    }
    assert(key@ =~= key_text_of(draws@));
    key
}

/// The draw made of four random bytes, the first the lowest.
pub open spec fn draw_of(b0: u8, b1: u8, b2: u8, b3: u8) -> u32 {
    (b0 as int + 256 * b1 as int + 65536 * b2 as int + 16777216 * b3 as int) as u32
}

/// The draws made of `bytes`, four bytes each.
fn draws_from_bytes(bytes: &Vec<u8>, count: usize) -> (res: Vec<u32>)
    requires
        bytes@.len() == 4 * count,
    ensures
        res@.len() == count,
        forall|j: int|
            0 <= j < count ==> #[trigger] res@[j] == draw_of(
                bytes@[4 * j],
                bytes@[4 * j + 1],
                bytes@[4 * j + 2],
                bytes@[4 * j + 3],
            ),
{
    let n: usize = bytes.len();
    let mut draws: Vec<u32> = Vec::new();
    let mut i: usize = 0;
    while i < count
        invariant
            i <= count,
            n == bytes@.len(),
            bytes@.len() == 4 * count,
            draws@.len() == i,
            forall|j: int|
                0 <= j < i ==> #[trigger] draws@[j] == draw_of(
                    bytes@[4 * j],
                    bytes@[4 * j + 1],
                    bytes@[4 * j + 2],
                    bytes@[4 * j + 3],
                ),
        decreases count - i,
    {
        let k: usize = 4 * i;
        let d: u32 = bytes[k] as u32 + 256 * (bytes[k + 1] as u32) + 65536 * (bytes[k + 2] as u32)
            + 16777216 * (bytes[k + 3] as u32);
        draws.push(d);
        i = i + 1;
    }
    draws
}

/// The draws made of `bytes`, four bytes each, the first the lowest.
pub open spec fn draws_of(bytes: Seq<u8>) -> Seq<u32> {
    Seq::new(
        bytes.len() / 4,
        |j: int| draw_of(bytes[4 * j], bytes[4 * j + 1], bytes[4 * j + 2], bytes[4 * j + 3]),
    )
}

/// The key text that random bytes pick: character `j` comes from the draw
/// made of bytes `4 * j` to `4 * j + 3`.
pub fn key_text_from_random_bytes(bytes: &Vec<u8>) -> (res: Vec<u8>)
    requires
        bytes@.len() % 4 == 0,
    ensures
        res@.len() == bytes@.len() / 4,
        res@ == key_text_of(draws_of(bytes@)),
        forall|j: int| 0 <= j < res@.len() ==> is_key_byte(#[trigger] res@[j]),
{
    let count: usize = bytes.len() / 4;
    let draws = draws_from_bytes(bytes, count);
    assert(draws@ =~= draws_of(bytes@));
    key_text_from_draws(draws.as_slice())
}

/// Each key character depends on its own four random bytes alone: random
/// bytes that agree on the four bytes of character `j` give the same
/// character `j`, whatever the other bytes are.
pub proof fn lemma_key_char_uses_its_own_bytes(b1: Seq<u8>, b2: Seq<u8>, j: int)
    requires
        b1.len() == b2.len(),
        b1.len() % 4 == 0,
        0 <= j < b1.len() / 4,
        b1[4 * j] == b2[4 * j],
        b1[4 * j + 1] == b2[4 * j + 1],
        b1[4 * j + 2] == b2[4 * j + 2],
        b1[4 * j + 3] == b2[4 * j + 3],
    ensures
        key_text_of(draws_of(b1))[j] == key_text_of(draws_of(b2))[j],
{
}

/// `len` key characters, each picked by a draw of four random bytes; `None`
/// when the operating system gives no random bytes.
fn random_key_text(len: usize) -> (res: Option<Vec<u8>>)
    requires
        len <= 1024,
    ensures
        res matches Some(key) ==> (exists|bytes: Seq<u8>|
            bytes.len() == 4 * len && key@ == #[trigger] key_text_of(draws_of(bytes))),
        res matches Some(key) ==> key@.len() == len && is_key_text_of_draws(key@, len as nat) && (
        forall|j: int| 0 <= j < len ==> is_key_byte(#[trigger] key@[j])),
{
    let mut bytes: Vec<u8> = Vec::new();
    let mut i: usize = 0;
    while i < 4 * len
        invariant
            i <= 4 * len,
            len <= 1024,
            bytes@.len() == i,
        decreases 4 * len - i,
    {
        bytes.push(0);
        i = i + 1;
    }
    if !try_fill_random(&mut bytes) {
        return None;
    }
    let key = key_text_from_random_bytes(&bytes);
    assert(draws_of(bytes@).len() == len);
    assert(key@ == key_text_of(draws_of(bytes@)));
    Some(key)
}

impl KeyGenerator for Blake3 {
    /// One key of 32 key characters, picked by 32 random draws; fails when
    /// the operating system gives no random bytes.
    fn generate() -> (res: Result<Vec<Vec<u8>>, ProcessError>)
        ensures
            res matches Ok(keys) ==> keys@.len() == 1 && keys@[0]@.len() == 32
                && is_key_text_of_draws(keys@[0]@, 32) && (forall|j: int|
                0 <= j < 32 ==> is_key_byte(#[trigger] keys@[0]@[j])),
            res matches Err(e) ==> e == ProcessError::NoRandomness,
    {
        match random_key_text(32) {
            Some(key) => {
                let mut keys: Vec<Vec<u8>> = Vec::new();
                keys.push(key);
                Ok(keys)
            },
            None => Err(ProcessError::NoRandomness),
        }
    }
}

impl KeyGenerator for Ed25519Signer {
    /// A random secret key and its public key, in that order; fails when the
    /// operating system gives no random bytes.
    fn generate() -> (res: Result<Vec<Vec<u8>>, ProcessError>)
        ensures
            res matches Ok(keys) ==> keys@.len() == 2 && keys@[0]@.len() == 32 && keys@[1]@.len()
                == 32 && keys@[1]@ == ed25519_public_key(keys@[0]@),
            res matches Err(e) ==> e == ProcessError::NoRandomness,
    {
        let mut bytes: Vec<u8> = Vec::new();
        let mut i: usize = 0;
        while i < 32
            invariant
                i <= 32,
                bytes@.len() == i,
            decreases 32 - i,
        {
            bytes.push(0);
            i = i + 1;
        }
        if !try_fill_random(&mut bytes) {
            return Err(ProcessError::NoRandomness);
        }
        let secret = first_32(bytes.as_slice());
        let public = ed25519_public_key_of(&secret);
        assert(bytes@.take(32) =~= bytes@);
        let mut keys: Vec<Vec<u8>> = Vec::new();
        keys.push(bytes);
        keys.push(bytes_to_vec(&public));
        Ok(keys)
    }
}

/// The signature bytes of `data` in `format` under the key whose file holds
/// `key`.
pub open spec fn text_signature(format: TextSignFormat, key: Seq<u8>, data: Seq<u8>) -> Seq<u8> {
    match format {
        TextSignFormat::Blake3 => blake3_keyed_hash(key.take(32), data),
        TextSignFormat::Ed25519 => ed25519_signature(key.take(32), data),
    }
}

/// The signature of a text as `text sign` prints it: URL-safe Base64
/// without padding.
pub open spec fn signature_text(sig: Seq<u8>) -> Seq<char> {
    ascii_text(encoded(Base64Variant::UrlSafeNoPad, sig))
}

/// Signs `data` in `format` with the key whose file holds `key`.
pub fn process_text_sign(data: &[u8], key: &[u8], format: TextSignFormat) -> (res: Result<String, ProcessError>)
    requires
        key@.len() >= 32,
    ensures
        res matches Ok(s) && s@ == signature_text(text_signature(format, key@, data@)),
        text_signature(format, key@, data@).len() == (if format == TextSignFormat::Blake3 { 32int } else { 64int }),
        format == TextSignFormat::Blake3 ==> (res matches Ok(s) && s@ == signature_text(
            blake3_keyed_hash(key@.take(32), data@),
        )),
        format == TextSignFormat::Ed25519 ==> (res matches Ok(s) && s@ == signature_text(
            ed25519_signature(key@.take(32), data@),
        )),
{
    let signed = match format {
        TextSignFormat::Blake3 => match Blake3::load(key) {
            Ok(signer) => signer.sign(data),
            Err(e) => Err(e),
        },
        TextSignFormat::Ed25519 => match Ed25519Signer::load(key) {
            Ok(signer) => signer.sign(data),
            Err(e) => Err(e),
        },
    };
    match signed {
        Ok(sig) => {
            proof {
                lemma_encoded_len_bound(Base64Variant::UrlSafeNoPad, sig@);
            }
            Ok(base64_encode(Base64Variant::UrlSafeNoPad, sig.as_slice()))
        },
        Err(e) => Err(e),
    }
}

/// What `text verify` answers for `data`, the file bytes `key` of the
/// verifying key, and the signature text `sig`: the signature must be
/// URL-safe Base64 without padding; BLAKE3 compares it with the keyed hash;
/// Ed25519 needs a valid public key and a 64-byte signature.
pub open spec fn text_verify_outcome(
    format: TextSignFormat,
    key: Seq<u8>,
    data: Seq<u8>,
    sig: Seq<char>,
) -> Result<bool, ProcessError> {
    match decoded(Base64Variant::UrlSafeNoPad, encode_utf8(sig)) {
        None => Err(ProcessError::InvalidBase64),
        Some(s) => match format {
            TextSignFormat::Blake3 => Ok(s == blake3_keyed_hash(key.take(32), data)),
            TextSignFormat::Ed25519 => if !ed25519_key_decodes(key.take(32)) {
                Err(ProcessError::InvalidVerifyingKey)
            } else if s.len() != 64 {
                Err(ProcessError::InvalidSignatureLength)
            } else {
                Ok(ed25519_verifies(key.take(32), data, s))
            },
        },
    }
}

/// Whether `sig` is the signature text of `data` made by `text sign` with a
/// key that matches the verifying key `key`: the same BLAKE3 key, or the
/// Ed25519 secret key of which `key` holds the public key.
pub open spec fn is_signature_text_of(
    format: TextSignFormat,
    key: Seq<u8>,
    data: Seq<u8>,
    sig: Seq<char>,
) -> bool {
    match format {
        TextSignFormat::Blake3 => sig == signature_text(blake3_keyed_hash(key.take(32), data)),
        TextSignFormat::Ed25519 => exists|secret: Seq<u8>|
            secret.len() == 32 && key.take(32) == #[trigger] ed25519_public_key(secret)
                && ed25519_signature(secret, data).len() == 64 && sig == signature_text(
                ed25519_signature(secret, data),
            ),
    }
}

/// The signature bytes of which `sig` is the text, when
/// `is_signature_text_of` holds.
spec fn signed_bytes(format: TextSignFormat, key: Seq<u8>, data: Seq<u8>, sig: Seq<char>) -> Seq<u8> {
    match format {
        TextSignFormat::Blake3 => blake3_keyed_hash(key.take(32), data),
        TextSignFormat::Ed25519 => {
            let secret = choose|secret: Seq<u8>|
                secret.len() == 32 && key.take(32) == #[trigger] ed25519_public_key(secret)
                    && ed25519_signature(secret, data).len() == 64 && sig == signature_text(
                    ed25519_signature(secret, data),
                );
            ed25519_signature(secret, data)
        },
    }
}

/// Whether the signature text `sig` is URL-safe Base64 without padding.
pub open spec fn signature_decodes(sig: Seq<char>) -> bool {
    decoded(Base64Variant::UrlSafeNoPad, encode_utf8(sig)) is Some
}

/// Decodes a signature text from URL-safe Base64 without padding.
pub fn decode_signature(sig: &str) -> (res: Result<Vec<u8>, ProcessError>)
    ensures
        match res {
            Ok(bytes) => decoded(Base64Variant::UrlSafeNoPad, encode_utf8(sig@)) == Some(bytes@),
            Err(e) => !signature_decodes(sig@) && e == ProcessError::InvalidBase64,
        },
{
    match base64_decode(Base64Variant::UrlSafeNoPad, sig.as_bytes()) {
        Ok(bytes) => {
            proof {
                lemma_decoded_is(Base64Variant::UrlSafeNoPad, encode_utf8(sig@), bytes@);
            }
            Ok(bytes)
        },
        Err(_) => Err(ProcessError::InvalidBase64),
    }
}

/// Checks the signature text `sig` of `data` in `format` against the key
/// whose file holds `key`. A signature made by `process_text_sign` with the
/// matching key is accepted.
pub fn process_text_verify(data: &[u8], key: &[u8], format: TextSignFormat, sig: &str) -> (res: Result<bool, ProcessError>)
    requires
        signature_decodes(sig@) ==> key@.len() >= 32,
    ensures
        res == text_verify_outcome(format, key@, data@, sig@),
        is_signature_text_of(format, key@, data@, sig@) ==> res == Ok::<bool, ProcessError>(true),
        !signature_decodes(sig@) ==> res == Err::<bool, ProcessError>(ProcessError::InvalidBase64),
        format == TextSignFormat::Blake3 ==> (decoded(Base64Variant::UrlSafeNoPad, encode_utf8(sig@)) matches Some(s)
            ==> res == Ok::<bool, ProcessError>(s == blake3_keyed_hash(key@.take(32), data@))),
        format == TextSignFormat::Ed25519 ==> (decoded(Base64Variant::UrlSafeNoPad, encode_utf8(sig@)) matches Some(s)
            ==> (!ed25519_key_decodes(key@.take(32)) ==> res == Err::<bool, ProcessError>(
            ProcessError::InvalidVerifyingKey,
        )) && (ed25519_key_decodes(key@.take(32)) && s.len() != 64 ==> res == Err::<bool, ProcessError>(
            ProcessError::InvalidSignatureLength,
        )) && (ed25519_key_decodes(key@.take(32)) && s.len() == 64 ==> res == Ok::<bool, ProcessError>(
            ed25519_verifies(key@.take(32), data@, s),
        ))),
{
    let sig_bytes = match decode_signature(sig) {
        Ok(bytes) => bytes,
        Err(e) => {
            proof {
                if is_signature_text_of(format, key@, data@, sig@) {
                    let s = signed_bytes(format, key@, data@, sig@);
                    lemma_encoded_text_bytes(Base64Variant::UrlSafeNoPad, s);
                    lemma_decoded_is(Base64Variant::UrlSafeNoPad, encode_utf8(sig@), s);
                }
            }
            return Err(e);
        },
    };
    match format {
        TextSignFormat::Blake3 => {
            let verifier = match Blake3::load(key) {
                Ok(v) => v,
                Err(e) => {
                    return Err(e);
                },
            };
            let res = verifier.verify(data, sig_bytes.as_slice());
            proof {
                if is_signature_text_of(format, key@, data@, sig@) {
                    let h = blake3_keyed_hash(key@.take(32), data@);
                    lemma_encoded_text_bytes(Base64Variant::UrlSafeNoPad, h);
                    lemma_decoded_is(Base64Variant::UrlSafeNoPad, encode_utf8(sig@), h);
                }
            }
            res
        },
        TextSignFormat::Ed25519 => {
            let ghost honest = is_signature_text_of(format, key@, data@, sig@);
            proof {
                if honest {
                    let secret = choose|secret: Seq<u8>|
                        secret.len() == 32 && key@.take(32) == #[trigger] ed25519_public_key(secret)
                            && ed25519_signature(secret, data@).len() == 64 && sig@ == signature_text(
                            ed25519_signature(secret, data@),
                        );
                    let s = ed25519_signature(secret, data@);
                    lemma_encoded_text_bytes(Base64Variant::UrlSafeNoPad, s);
                    lemma_decoded_is(Base64Variant::UrlSafeNoPad, encode_utf8(sig@), s);
                    assert(sig_bytes@ == s);
                    assert(crate::crypto::is_public_key_of_some_secret(key@.take(32)));
                    assert(is_honest_signature(key@.take(32), data@, sig_bytes@));
                }
            }
            let verifier = match Ed25519Verifier::load(key) {
                Ok(v) => v,
                Err(e) => {
                    return Err(e);
                },
            };
            verifier.verify(data, sig_bytes.as_slice())
        },
    }
}

/// A BLAKE3 signature text made by `process_text_sign` is accepted by
/// `process_text_verify` with the same key.
pub proof fn lemma_blake3_sign_then_verify(key: Seq<u8>, data: Seq<u8>)
    ensures
        text_verify_outcome(
            TextSignFormat::Blake3,
            key,
            data,
            signature_text(text_signature(TextSignFormat::Blake3, key, data)),
        ) == Ok::<bool, ProcessError>(true),
{
    let h = blake3_keyed_hash(key.take(32), data);
    lemma_encoded_text_bytes(Base64Variant::UrlSafeNoPad, h);
    lemma_decoded_is(Base64Variant::UrlSafeNoPad, encode_utf8(signature_text(h)), h);
}

/// An Ed25519 signature text made by `process_text_sign` with a secret key
/// is, for `process_text_verify`, the signature text of the data under the
/// public key that belongs to that secret key (as `process_text_generate`
/// pairs them), and so is accepted.
pub proof fn lemma_ed25519_sign_then_verify(secret: Seq<u8>, public: Seq<u8>, data: Seq<u8>)
    requires
        secret.len() == 32,
        public.len() == 32,
        public == ed25519_public_key(secret),
        text_signature(TextSignFormat::Ed25519, secret, data).len() == 64,
    ensures
        is_signature_text_of(
            TextSignFormat::Ed25519,
            public,
            data,
            signature_text(text_signature(TextSignFormat::Ed25519, secret, data)),
        ),
{
    assert(secret.take(32) =~= secret);
    assert(public.take(32) =~= public);
}

/// A signature depends on the first 32 bytes of the key file alone: bytes
/// appended to a key file of at least 32 bytes do not change it.
pub proof fn lemma_signature_uses_first_32_key_bytes(
    format: TextSignFormat,
    key: Seq<u8>,
    extra: Seq<u8>,
    data: Seq<u8>,
)
    requires
        key.len() >= 32,
    ensures
        text_signature(format, key + extra, data) == text_signature(format, key, data),
        signature_text(text_signature(format, key + extra, data)) == signature_text(
            text_signature(format, key, data),
        ),
{
    assert((key + extra).take(32) =~= key.take(32));
}

/// Two key files that agree on their first 32 bytes give the same signature.
pub proof fn lemma_signature_same_for_same_first_32_key_bytes(
    format: TextSignFormat,
    key1: Seq<u8>,
    key2: Seq<u8>,
    data: Seq<u8>,
)
    requires
        key1.len() >= 32,
        key2.len() >= 32,
        forall|i: int| 0 <= i < 32 ==> key1[i] == key2[i],
    ensures
        text_signature(format, key1, data) == text_signature(format, key2, data),
{
    assert(key1.take(32) =~= key2.take(32));
}

/// BLAKE3 verification compares the decoded signature with the whole keyed
/// hash: it is accepted exactly when the two are equal, so any other bytes,
/// a shorter or longer prefix among them, are refused.
pub proof fn lemma_blake3_verify_compares_whole_hash(key: Seq<u8>, data: Seq<u8>, sig: Seq<char>)
    ensures
        decoded(Base64Variant::UrlSafeNoPad, encode_utf8(sig)) matches Some(s) ==> text_verify_outcome(
            TextSignFormat::Blake3,
            key,
            data,
            sig,
        ) == Ok::<bool, ProcessError>(s == blake3_keyed_hash(key.take(32), data)),
        decoded(Base64Variant::UrlSafeNoPad, encode_utf8(sig)) matches Some(s) ==> (s
            != blake3_keyed_hash(key.take(32), data) ==> text_verify_outcome(
            TextSignFormat::Blake3,
            key,
            data,
            sig,
        ) == Ok::<bool, ProcessError>(false)),
{
}

/// Makes new keys in `format`: one BLAKE3 key of 32 key characters, or an
/// Ed25519 secret key followed by its public key. It fails only when the
/// operating system gives no random bytes.
pub fn process_text_generate(format: TextSignFormat) -> (res: Result<Vec<Vec<u8>>, ProcessError>)
    ensures
        res matches Err(e) ==> e == ProcessError::NoRandomness,
        format == TextSignFormat::Blake3 ==> (res matches Ok(keys) ==> keys@.len() == 1
            && keys@[0]@.len() == 32 && is_key_text_of_draws(keys@[0]@, 32) && (forall|j: int|
            0 <= j < 32 ==> is_key_byte(#[trigger] keys@[0]@[j]))),
        format == TextSignFormat::Ed25519 ==> (res matches Ok(keys) ==> keys@.len() == 2
            && keys@[0]@.len() == 32 && keys@[1]@.len() == 32 && keys@[1]@ == ed25519_public_key(
            keys@[0]@,
        )),
{
    match format {
        TextSignFormat::Blake3 => Blake3::generate(),
        TextSignFormat::Ed25519 => Ed25519Signer::generate(),
    }
}

} // verus!
