//! `base64 encode` and `base64 decode`.
use vstd::prelude::*;

use crate::cli::base64::Base64Format;
use crate::encoding::{
    ascii_text, base64_decode, base64_encode, decoded, encodable, encoded, lemma_decode_encoded,
    lemma_decoded_is, lemma_encode_decoded, lemma_encoded_text_bytes,
    lemma_url_safe_is_standard_replaced, url_safe_byte,
};
use vstd::utf8::{
    decode_utf8, encode_utf8, encode_utf8_decode_utf8, encode_utf8_valid_utf8, valid_utf8,
};
use crate::process::ProcessError;

verus! {

/// Encodes `data` in the Base64 flavour of `format`.
pub fn process_encode(data: &[u8], format: Base64Format) -> (res: String)
    requires
        encodable(format.variant(), data@),
    ensures
        res@ == ascii_text(encoded(format.variant(), data@)),
{
    base64_encode(format.to_variant(), data)
}

/// Decodes `text` from the Base64 flavour of `format`; it fails exactly when
/// `text` is not the encoding of any bytes.
pub fn process_decode(text: &[u8], format: Base64Format) -> (res: Result<Vec<u8>, ProcessError>)
    ensures
        match res {
            Ok(data) => decoded(format.variant(), text@) == Some(data@),
            Err(e) => decoded(format.variant(), text@) is None && e == ProcessError::InvalidBase64,
        },
{
    match base64_decode(format.to_variant(), text) {
        Ok(data) => {
            proof {
                lemma_decoded_is(format.variant(), text@, data@);
            }
            Ok(data)
        },
        Err(_) => Err(ProcessError::InvalidBase64),
    }
}

/// Calls `String::from_utf8` of std and keeps the text when the bytes are
/// valid UTF-8. Trusted: std accepts exactly the well-formed UTF-8 sequences
/// (no overlong forms, no surrogates, nothing above U+10FFFF), which is what
/// `valid_utf8` states, and the text holds the characters they encode.
#[verifier::external_body]
fn string_from_utf8(data: Vec<u8>) -> (res: Option<String>)
    ensures
        match res {
            Some(s) => valid_utf8(data@) && s@ == decode_utf8(data@),
            None => !valid_utf8(data@),
        },
{
    String::from_utf8(data).ok()
}

/// The text that `base64 decode` prints: the decoded bytes, read as UTF-8.
pub fn decoded_text(data: Vec<u8>) -> (res: Result<String, ProcessError>)
    ensures
        match res {
            Ok(s) => valid_utf8(data@) && s@ == decode_utf8(data@),
            Err(e) => !valid_utf8(data@) && e == ProcessError::InvalidUtf8,
        },
{
    match string_from_utf8(data) {
        Some(s) => Ok(s),
        None => Err(ProcessError::InvalidUtf8),
    }
}

/// Encoding the UTF-8 bytes of a text, decoding the result and reading it as
/// UTF-8 gives back the text.
pub proof fn lemma_text_round_trip(format: Base64Format, text: Seq<char>)
    ensures
        decoded(format.variant(), encoded(format.variant(), encode_utf8(text))) == Some(
            encode_utf8(text),
        ),
        valid_utf8(encode_utf8(text)),
        decode_utf8(encode_utf8(text)) == text,
{
    lemma_decode_encoded(format.variant(), encode_utf8(text));
    encode_utf8_valid_utf8(text);
    encode_utf8_decode_utf8(text);
}

/// Decoding the bytes of the text that `process_encode` returns gives back
/// the encoded data.
pub proof fn lemma_decode_after_encode(format: Base64Format, data: Seq<u8>)
    ensures
        decoded(format.variant(), encode_utf8(ascii_text(encoded(format.variant(), data))))
            == Some(data),
{
    lemma_encoded_text_bytes(format.variant(), data);
    lemma_decode_encoded(format.variant(), data);
}

/// A text that `process_decode` accepts is, byte for byte, the text that
/// `process_encode` returns for the decoded data.
pub proof fn lemma_encode_after_decode(format: Base64Format, text: Seq<u8>)
    ensures
        decoded(format.variant(), text) matches Some(data) ==> encode_utf8(
            ascii_text(encoded(format.variant(), data)),
        ) == text,
{
    lemma_encode_decoded(format.variant(), text);
    if let Some(data) = decoded(format.variant(), text) {
        lemma_encoded_text_bytes(format.variant(), data);
    }
}

/// The URL-safe counterpart of a character of standard Base64 text.
pub open spec fn url_safe_char(c: char) -> char {
    if c == '+' {
        '-'
    } else if c == '/' {
        '_'
    } else {
        c
    }
}

/// What `process_encode` returns in the URL-safe format is what it returns in
/// the standard format with `+` replaced by `-` and `/` replaced by `_`.
pub proof fn lemma_url_safe_text_is_standard_replaced(data: Seq<u8>)
    ensures
        ascii_text(encoded(Base64Format::UrlSafe.variant(), data)) == ascii_text(
            encoded(Base64Format::Standard.variant(), data),
        ).map_values(|c: char| url_safe_char(c)),
{
    lemma_url_safe_is_standard_replaced(data);
    let s = encoded(Base64Format::Standard.variant(), data);
    let u = encoded(Base64Format::UrlSafe.variant(), data);
    assert forall|i: int| 0 <= i < u.len() implies #[trigger] (u[i] as char) == url_safe_char(
        s[i] as char,
    ) by {
        assert(u[i] == url_safe_byte(s[i]));
    }
    assert(ascii_text(u) =~= ascii_text(s).map_values(|c: char| url_safe_char(c)));
}

} // verus!
