//! Base64 (RFC 4648) as this library uses it: the standard alphabet with
//! padding, the URL-safe alphabet with padding, and the URL-safe alphabet
//! without padding.
//!
//! The encoding is stated here as a spec function over bytes. The `base64`
//! crate does the work; its two entry points are reached through the trusted
//! wrappers at the end of this file, whose contracts speak of that spec.
//! Decoding is characterised by encoding: a text decodes to `d` exactly when
//! it is the encoding of `d`, and the lemmas below prove that at most one such
//! `d` exists.
use vstd::prelude::*;
use vstd::utf8::{encode_utf8, is_ascii_chars, is_ascii_chars_encode_utf8};

verus! {

/// The three Base64 flavours that the library uses.
#[derive(Clone, Copy, Debug, PartialEq, Eq, Structural)]
pub enum Base64Variant {
    /// `A-Z a-z 0-9 + /`, padded with `=`.
    Standard,
    /// `A-Z a-z 0-9 - _`, padded with `=`.
    UrlSafe,
    /// `A-Z a-z 0-9 - _`, without padding.
    UrlSafeNoPad,
}

impl Base64Variant {
    /// Whether symbols 62 and 63 are `-` and `_` (else `+` and `/`).
    pub open spec fn url_safe(self) -> bool {
        !(self is Standard)
    }

    /// Whether a final partial group is completed with `=`.
    pub open spec fn padded(self) -> bool {
        !(self is UrlSafeNoPad)
    }
}

/// The padding byte `=`.
pub open spec fn pad_byte() -> u8 {
    61
}

/// The byte of the symbol that stands for the six-bit value `v`.
pub open spec fn symbol(variant: Base64Variant, v: int) -> u8 {
    if v < 26 {
        (65 + v) as u8  // 'A'..'Z'

    } else if v < 52 {
        (71 + v) as u8  // 'a'..'z'

    } else if v < 62 {
        (v - 4) as u8  // '0'..'9'

    } else if v == 62 {
        if variant.url_safe() {
            45u8  // '-'

        } else {
            43u8  // '+'

        }
    } else {
        if variant.url_safe() {
            95u8  // '_'

        } else {
            47u8  // '/'

        }
    }
}

/// The four symbols that encode the three bytes `a`, `b`, `c`.
pub open spec fn encode_group(variant: Base64Variant, a: u8, b: u8, c: u8) -> Seq<u8> {
    seq![
        symbol(variant, a as int / 4),
        symbol(variant, (a as int % 4) * 16 + b as int / 16),
        symbol(variant, (b as int % 16) * 4 + c as int / 64),
        symbol(variant, c as int % 64),
    ]
}

/// The symbols that encode a final group of one byte.
pub open spec fn encode_one(variant: Base64Variant, a: u8) -> Seq<u8> {
    let s = seq![symbol(variant, a as int / 4), symbol(variant, (a as int % 4) * 16)];
    if variant.padded() {
        s + seq![pad_byte(), pad_byte()]
    } else {
        s
    }
}

/// The symbols that encode a final group of two bytes.
pub open spec fn encode_two(variant: Base64Variant, a: u8, b: u8) -> Seq<u8> {
    let s = seq![
        symbol(variant, a as int / 4),
        symbol(variant, (a as int % 4) * 16 + b as int / 16),
        symbol(variant, (b as int % 16) * 4),
    ];
    if variant.padded() {
        s + seq![pad_byte()]
    } else {
        s
    }
}

/// The Base64 encoding of `data`, as bytes.
pub open spec fn encoded(variant: Base64Variant, data: Seq<u8>) -> Seq<u8>
    decreases data.len(),
{
    if data.len() == 0 {
        seq![]
    } else if data.len() == 1 {
        encode_one(variant, data[0])
    } else if data.len() == 2 {
        encode_two(variant, data[0], data[1])
    } else {
        encode_group(variant, data[0], data[1], data[2]) + encoded(variant, data.skip(3))
    }
}

/// The characters of a sequence of ASCII bytes.
pub open spec fn ascii_text(bytes: Seq<u8>) -> Seq<char> {
    bytes.map_values(|b: u8| b as char)
}

/// Whether `text` is the encoding of some byte sequence.
pub open spec fn is_encoding(variant: Base64Variant, text: Seq<u8>) -> bool {
    exists|data: Seq<u8>| #[trigger] encoded(variant, data) == text
}

/// What `text` decodes to: the bytes whose encoding it is, if there are any.
pub open spec fn decoded(variant: Base64Variant, text: Seq<u8>) -> Option<Seq<u8>> {
    if is_encoding(variant, text) {
        Some(choose|data: Seq<u8>| #[trigger] encoded(variant, data) == text)
    } else {
        None
    }
}

proof fn lemma_symbol_injective(variant: Base64Variant, v: int, w: int)
    requires
        0 <= v < 64,
        0 <= w < 64,
        symbol(variant, v) == symbol(variant, w),
    ensures
        v == w,
{
}

proof fn lemma_symbol_not_pad(variant: Base64Variant, v: int)
    requires
        0 <= v < 64,
    ensures
        symbol(variant, v) != pad_byte(),
        symbol(variant, v) < 128,
{
}

proof fn lemma_group_values(a: u8, b: u8, c: u8)
    ensures
        0 <= a as int / 4 < 64,
        0 <= (a as int % 4) * 16 + b as int / 16 < 64,
        0 <= (b as int % 16) * 4 + c as int / 64 < 64,
        0 <= c as int % 64 < 64,
        0 <= (a as int % 4) * 16 < 64,
        0 <= (b as int % 16) * 4 < 64,
{
}

proof fn lemma_group_bits_injective(a: u8, b: u8, c: u8, x: u8, y: u8, z: u8)
    requires
        a / 4 == x / 4,
        (a % 4) * 16 + b / 16 == (x % 4) * 16 + y / 16,
        (b % 16) * 4 + c / 64 == (y % 16) * 4 + z / 64,
        c % 64 == z % 64,
    ensures
        a == x,
        b == y,
        c == z,
{
    assert(a == x && b == y && c == z) by (bit_vector)
        requires
            a / 4 == x / 4,
            (a % 4) * 16 + b / 16 == (x % 4) * 16 + y / 16,
            (b % 16) * 4 + c / 64 == (y % 16) * 4 + z / 64,
            c % 64 == z % 64,
    ;
}

proof fn lemma_pair_bits_injective(a: u8, b: u8, x: u8, y: u8)
    requires
        a / 4 == x / 4,
        (a % 4) * 16 + b / 16 == (x % 4) * 16 + y / 16,
        (b % 16) * 4 == (y % 16) * 4,
    ensures
        a == x,
        b == y,
{
    assert(a == x && b == y) by (bit_vector)
        requires
            a / 4 == x / 4,
            (a % 4) * 16 + b / 16 == (x % 4) * 16 + y / 16,
            (b % 16) * 4 == (y % 16) * 4,
    ;
}

proof fn lemma_single_bits_injective(a: u8, x: u8)
    requires
        a / 4 == x / 4,
        (a % 4) * 16 == (x % 4) * 16,
    ensures
        a == x,
{
    assert(a == x) by (bit_vector)
        requires
            a / 4 == x / 4,
            (a % 4) * 16 == (x % 4) * 16,
    ;
}

/// The length of an encoding, and the fact that the empty sequence alone
/// has an empty encoding.
pub proof fn lemma_encoded_len(variant: Base64Variant, data: Seq<u8>)
    ensures
        data.len() == 0 <==> encoded(variant, data).len() == 0,
        data.len() == 1 ==> encoded(variant, data).len() == (if variant.padded() { 4int } else { 2int }),
        data.len() == 2 ==> encoded(variant, data).len() == (if variant.padded() { 4int } else { 3int }),
        data.len() >= 3 ==> encoded(variant, data).len() >= 4,
    decreases data.len(),
{
    if data.len() >= 3 {
        lemma_encoded_len(variant, data.skip(3));
    }
}

/// An upper bound on the length of an encoding.
pub proof fn lemma_encoded_len_bound(variant: Base64Variant, data: Seq<u8>)
    ensures
        encoded(variant, data).len() <= 2 * data.len() + 4,
    decreases data.len(),
{
    if data.len() >= 3 {
        lemma_encoded_len_bound(variant, data.skip(3));
    }
}

/// Every byte of an encoding is an ASCII byte.
pub proof fn lemma_encoded_ascii(variant: Base64Variant, data: Seq<u8>)
    ensures
        forall|i: int| 0 <= i < encoded(variant, data).len() ==> #[trigger] encoded(variant, data)[i] < 128,
    decreases data.len(),
{
    if data.len() == 0 {
    } else if data.len() == 1 {
        lemma_group_values(data[0], 0, 0);
        lemma_symbol_not_pad(variant, data[0] as int / 4);
        lemma_symbol_not_pad(variant, (data[0] as int % 4) * 16);
    } else if data.len() == 2 {
        lemma_group_values(data[0], data[1], 0);
        lemma_symbol_not_pad(variant, data[0] as int / 4);
        lemma_symbol_not_pad(variant, (data[0] as int % 4) * 16 + data[1] as int / 16);
        lemma_symbol_not_pad(variant, (data[1] as int % 16) * 4);
    } else {
        let (a, b, c) = (data[0], data[1], data[2]);
        lemma_group_values(a, b, c);
        lemma_symbol_not_pad(variant, a as int / 4);
        lemma_symbol_not_pad(variant, (a as int % 4) * 16 + b as int / 16);
        lemma_symbol_not_pad(variant, (b as int % 16) * 4 + c as int / 64);
        lemma_symbol_not_pad(variant, c as int % 64);
        lemma_encoded_ascii(variant, data.skip(3));
        let g = encode_group(variant, a, b, c);
        let r = encoded(variant, data.skip(3));
        assert forall|i: int| 0 <= i < encoded(variant, data).len() implies #[trigger] encoded(
            variant,
            data,
        )[i] < 128 by {
            if i >= 4 {
                assert(encoded(variant, data)[i] == r[i - 4]);
            }
        }
    }
}

/// Distinct byte sequences have distinct encodings.
pub proof fn lemma_encoded_injective(variant: Base64Variant, x: Seq<u8>, y: Seq<u8>)
    requires
        encoded(variant, x) == encoded(variant, y),
    ensures
        x == y,
    decreases x.len(),
{
    let ex = encoded(variant, x);
    lemma_encoded_len(variant, x);
    lemma_encoded_len(variant, y);
    if x.len() == 0 {
        assert(x =~= y);
    } else if x.len() >= 3 && y.len() >= 3 {
        let (a, b, c) = (x[0], x[1], x[2]);
        let (p, q, r) = (y[0], y[1], y[2]);
        lemma_group_values(a, b, c);
        lemma_group_values(p, q, r);
        assert(ex[0] == encode_group(variant, a, b, c)[0]);
        assert(ex[0] == encode_group(variant, p, q, r)[0]);
        lemma_symbol_injective(variant, a as int / 4, p as int / 4);
        assert(ex[1] == encode_group(variant, a, b, c)[1]);
        assert(ex[1] == encode_group(variant, p, q, r)[1]);
        lemma_symbol_injective(variant, (a as int % 4) * 16 + b as int / 16, (p as int % 4) * 16 + q as int / 16);
        assert(ex[2] == encode_group(variant, a, b, c)[2]);
        assert(ex[2] == encode_group(variant, p, q, r)[2]);
        lemma_symbol_injective(variant, (b as int % 16) * 4 + c as int / 64, (q as int % 16) * 4 + r as int / 64);
        assert(ex[3] == encode_group(variant, a, b, c)[3]);
        assert(ex[3] == encode_group(variant, p, q, r)[3]);
        lemma_symbol_injective(variant, c as int % 64, r as int % 64);
        lemma_group_bits_injective(a, b, c, p, q, r);
        let rx = encoded(variant, x.skip(3));
        let ry = encoded(variant, y.skip(3));
        assert(rx =~= ex.skip(4));
        assert(ry =~= ex.skip(4));
        lemma_encoded_injective(variant, x.skip(3), y.skip(3));
        assert(x =~= seq![a, b, c] + x.skip(3));
        assert(y =~= seq![p, q, r] + y.skip(3));
    } else if x.len() >= 3 {
        // y has one or two bytes: only a padded encoding of three bytes has the same length
        lemma_encoded_len(variant, x.skip(3));
        let (a, b, c) = (x[0], x[1], x[2]);
        lemma_group_values(a, b, c);
        assert(ex[3] == encode_group(variant, a, b, c)[3]);
        lemma_symbol_not_pad(variant, c as int % 64);
        if y.len() == 1 {
            assert(ex[2] == encode_group(variant, a, b, c)[2]);
            lemma_symbol_not_pad(variant, (b as int % 16) * 4 + c as int / 64);
        }
    } else if y.len() >= 3 {
        lemma_encoded_len(variant, y.skip(3));
        let (p, q, r) = (y[0], y[1], y[2]);
        lemma_group_values(p, q, r);
        assert(ex[3] == encode_group(variant, p, q, r)[3]);
        lemma_symbol_not_pad(variant, r as int % 64);
        if x.len() == 1 {
            assert(ex[2] == encode_group(variant, p, q, r)[2]);
            lemma_symbol_not_pad(variant, (q as int % 16) * 4 + r as int / 64);
        }
    } else if x.len() == 1 && y.len() == 1 {
        let (a, p) = (x[0], y[0]);
        lemma_group_values(a, 0, 0);
        lemma_group_values(p, 0, 0);
        assert(ex[0] == encode_one(variant, a)[0]);
        assert(ex[0] == encode_one(variant, p)[0]);
        assert(ex[1] == encode_one(variant, a)[1]);
        assert(ex[1] == encode_one(variant, p)[1]);
        lemma_symbol_injective(variant, a as int / 4, p as int / 4);
        lemma_symbol_injective(variant, (a as int % 4) * 16, (p as int % 4) * 16);
        lemma_single_bits_injective(a, p);
        assert(x =~= y);
    } else if x.len() == 2 && y.len() == 2 {
        let (a, b, p, q) = (x[0], x[1], y[0], y[1]);
        lemma_group_values(a, b, 0);
        lemma_group_values(p, q, 0);
        assert(ex[0] == encode_two(variant, a, b)[0]);
        assert(ex[0] == encode_two(variant, p, q)[0]);
        assert(ex[1] == encode_two(variant, a, b)[1]);
        assert(ex[1] == encode_two(variant, p, q)[1]);
        assert(ex[2] == encode_two(variant, a, b)[2]);
        assert(ex[2] == encode_two(variant, p, q)[2]);
        lemma_symbol_injective(variant, a as int / 4, p as int / 4);
        lemma_symbol_injective(variant, (a as int % 4) * 16 + b as int / 16, (p as int % 4) * 16 + q as int / 16);
        lemma_symbol_injective(variant, (b as int % 16) * 4, (q as int % 16) * 4);
        lemma_pair_bits_injective(a, b, p, q);
        assert(x =~= y);
    } else if x.len() == 1 {
        // y has two bytes: the third symbol of y is no padding
        let (p, q) = (y[0], y[1]);
        lemma_group_values(p, q, 0);
        assert(ex[2] == encode_two(variant, p, q)[2]);
        lemma_symbol_not_pad(variant, (q as int % 16) * 4);
    } else {
        let (a, b) = (x[0], x[1]);
        lemma_group_values(a, b, 0);
        assert(ex[2] == encode_two(variant, a, b)[2]);
        lemma_symbol_not_pad(variant, (b as int % 16) * 4);
    }
}

/// The UTF-8 bytes of the text of an encoding are the encoding itself.
pub proof fn lemma_encoded_text_bytes(variant: Base64Variant, data: Seq<u8>)
    ensures
        encode_utf8(ascii_text(encoded(variant, data))) == encoded(variant, data),
{
    let e = encoded(variant, data);
    let t = ascii_text(e);
    lemma_encoded_ascii(variant, data);
    assert(is_ascii_chars(t));
    is_ascii_chars_encode_utf8(t);
    assert(encode_utf8(t) =~= e);
}

/// The URL-safe counterpart of a standard Base64 byte: `+` becomes `-` and
/// `/` becomes `_`; every other byte stays.
pub open spec fn url_safe_byte(b: u8) -> u8 {
    if b == 43 {
        45
    } else if b == 47 {
        95
    } else {
        b
    }
}

proof fn lemma_url_safe_symbol(v: int)
    requires
        0 <= v < 64,
    ensures
        symbol(Base64Variant::UrlSafe, v) == url_safe_byte(symbol(Base64Variant::Standard, v)),
{
}

/// The URL-safe encoding is the standard encoding with `+` replaced by `-`
/// and `/` replaced by `_`.
pub proof fn lemma_url_safe_is_standard_replaced(data: Seq<u8>)
    ensures
        encoded(Base64Variant::UrlSafe, data) == encoded(Base64Variant::Standard, data).map_values(
            |b: u8| url_safe_byte(b),
        ),
    decreases data.len(),
{
    let u = Base64Variant::UrlSafe;
    let st = Base64Variant::Standard;
    if data.len() == 0 {
        assert(encoded(u, data) =~= encoded(st, data).map_values(|b: u8| url_safe_byte(b)));
    } else if data.len() == 1 {
        let a = data[0];
        lemma_group_values(a, 0, 0);
        lemma_url_safe_symbol(a as int / 4);
        lemma_url_safe_symbol((a as int % 4) * 16);
        assert(encoded(u, data) =~= encoded(st, data).map_values(|b: u8| url_safe_byte(b)));
    } else if data.len() == 2 {
        let (a, b) = (data[0], data[1]);
        lemma_group_values(a, b, 0);
        lemma_url_safe_symbol(a as int / 4);
        lemma_url_safe_symbol((a as int % 4) * 16 + b as int / 16);
        lemma_url_safe_symbol((b as int % 16) * 4);
        assert(encoded(u, data) =~= encoded(st, data).map_values(|b: u8| url_safe_byte(b)));
    } else {
        let (a, b, c) = (data[0], data[1], data[2]);
        lemma_group_values(a, b, c);
        lemma_url_safe_symbol(a as int / 4);
        lemma_url_safe_symbol((a as int % 4) * 16 + b as int / 16);
        lemma_url_safe_symbol((b as int % 16) * 4 + c as int / 64);
        lemma_url_safe_symbol(c as int % 64);
        lemma_url_safe_is_standard_replaced(data.skip(3));
        let gu = encode_group(u, a, b, c);
        let gs = encode_group(st, a, b, c);
        assert(gu =~= gs.map_values(|b: u8| url_safe_byte(b)));
        assert(encoded(u, data) =~= encoded(st, data).map_values(|b: u8| url_safe_byte(b)));
    }
}

/// Decoding the encoding of `data` gives back `data`.
pub proof fn lemma_decode_encoded(variant: Base64Variant, data: Seq<u8>)
    ensures
        decoded(variant, encoded(variant, data)) == Some(data),
{
    let text = encoded(variant, data);
    assert(is_encoding(variant, text));
    let d = choose|d: Seq<u8>| #[trigger] encoded(variant, d) == text;
    lemma_encoded_injective(variant, d, data);
}

/// A text that decodes to some bytes is the encoding of those bytes.
pub proof fn lemma_encode_decoded(variant: Base64Variant, text: Seq<u8>)
    ensures
        decoded(variant, text) matches Some(data) ==> encoded(variant, data) == text,
{
}

/// When `data` is known to be encoded by `text`, `text` decodes to `data`.
pub proof fn lemma_decoded_is(variant: Base64Variant, text: Seq<u8>, data: Seq<u8>)
    requires
        encoded(variant, data) == text,
    ensures
        decoded(variant, text) == Some(data),
{
    lemma_decode_encoded(variant, data);
}

/// The error type of the `base64` crate's decoder.
#[verifier::external_type_specification]
#[verifier::external_body]
pub struct ExDecodeError(::base64::DecodeError);

/// Whether the encoding of `data` has a length that fits in `usize`, which
/// the `base64` crate's encoder checks before it allocates.
pub open spec fn encodable(variant: Base64Variant, data: Seq<u8>) -> bool {
    encoded(variant, data).len() <= usize::MAX
}

/// Calls `Engine::encode` of the `base64` crate on the engine of `variant`
/// (`STANDARD`, `URL_SAFE` or `URL_SAFE_NO_PAD`). Trusted: the returned string
/// holds, as characters, the bytes of the RFC 4648 encoding stated by
/// `encoded`. The crate panics when the encoded length overflows `usize`,
/// which `requires` rules out.
#[verifier::external_body]
pub(crate) fn base64_encode(variant: Base64Variant, data: &[u8]) -> (res: String)
    requires
        encodable(variant, data@),
    ensures
        res@ == ascii_text(encoded(variant, data@)),
{
    let engine = match variant {
        Base64Variant::Standard => &::base64::prelude::BASE64_STANDARD,
        Base64Variant::UrlSafe => &::base64::prelude::BASE64_URL_SAFE,
        Base64Variant::UrlSafeNoPad => &::base64::prelude::BASE64_URL_SAFE_NO_PAD,
    };
    ::base64::Engine::encode(engine, data)
}

/// Calls `Engine::decode` of the `base64` crate on the engine of `variant`.
/// Trusted: these engines reject trailing bits and require canonical padding
/// (or none, for `URL_SAFE_NO_PAD`), so the decoder succeeds exactly on the
/// texts that are the encoding of some bytes, and returns those bytes.
#[verifier::external_body]
pub(crate) fn base64_decode(variant: Base64Variant, text: &[u8]) -> (res: Result<Vec<u8>, ::base64::DecodeError>)
    ensures
        match res {
            Ok(data) => encoded(variant, data@) == text@,
            Err(_) => !is_encoding(variant, text@),
        },
{
    let engine = match variant {
        Base64Variant::Standard => &::base64::prelude::BASE64_STANDARD,
        Base64Variant::UrlSafe => &::base64::prelude::BASE64_URL_SAFE,
        Base64Variant::UrlSafeNoPad => &::base64::prelude::BASE64_URL_SAFE_NO_PAD,
    };
    ::base64::Engine::decode(engine, text)
}

} // verus!
