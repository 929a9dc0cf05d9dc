//! Hexadecimal text, as the `hex` crate writes and reads it.

use vstd::prelude::*;
use vstd::utf8::{encode_utf8, is_ascii_chars, is_ascii_chars_encode_utf8};

verus! {

/// The lowercase hex digit of `n` (0 to 15).
pub open spec fn hex_digit_char(n: int) -> char {
    if n < 10 {
        (('0' as int) + n) as char
    } else {
        (('a' as int) + n - 10) as char
    }
}

/// Lowercase hex text of `b`: two digits per byte, high nibble first.
pub open spec fn hex_text(b: Seq<u8>) -> Seq<char> {
    Seq::new(
        2 * b.len(),
        |i: int|
            if i % 2 == 0 {
                hex_digit_char(b[i / 2] as int / 16)
            } else {
                hex_digit_char(b[i / 2] as int % 16)
            },
    )
}

/// `b` back to front.
pub open spec fn reversed(b: Seq<u8>) -> Seq<u8> {
    Seq::new(b.len(), |i: int| b[b.len() - 1 - i])
}

/// Whether the byte is an ASCII hex digit of either case.
pub open spec fn is_hex_byte(c: u8) -> bool {
    (0x30 <= c <= 0x39) || (0x41 <= c <= 0x46) || (0x61 <= c <= 0x66)
}

/// The value of an ASCII hex digit.
pub open spec fn hex_byte_value(c: u8) -> int {
    if 0x30 <= c <= 0x39 {
        c - 0x30
    } else if 0x41 <= c <= 0x46 {
        c - 0x41 + 10
    } else {
        c - 0x61 + 10
    }
}

/// What hex text `s` (as bytes) decodes to: `None` where its length is odd or
/// a byte is not a hex digit.
pub open spec fn hex_decoded(s: Seq<u8>) -> Option<Seq<u8>> {
    if s.len() % 2 != 0 || exists|i: int| 0 <= i < s.len() && !#[trigger] is_hex_byte(s[i]) {
        None
    } else {
        Some(
            Seq::new(
                s.len() / 2,
                |i: int| (hex_byte_value(s[2 * i]) * 16 + hex_byte_value(s[2 * i + 1])) as u8,
            ),
        )
    }
}

/// Hex text is ASCII: its UTF-8 bytes are its characters, each a hex digit,
/// and they decode back to the bytes that were written.
pub proof fn lemma_hex_text_roundtrip(b: Seq<u8>)
    ensures
        is_ascii_chars(hex_text(b)),
        encode_utf8(hex_text(b)).len() == 2 * b.len(),
        forall|i: int| 0 <= i < 2 * b.len() ==> #[trigger] is_hex_byte(encode_utf8(hex_text(b))[i]),
        hex_decoded(encode_utf8(hex_text(b))) == Some(b),
{
    let t = hex_text(b);
    assert forall|i: int| 0 <= i < t.len() implies '\0' <= #[trigger] t[i] <= '\u{7f}' by {
        lemma_hex_digit_char(b[i / 2] as int / 16);
        lemma_hex_digit_char(b[i / 2] as int % 16);
    }
    is_ascii_chars_encode_utf8(t);
    let e = encode_utf8(t);
    assert forall|i: int| 0 <= i < 2 * b.len() implies #[trigger] is_hex_byte(e[i]) by {
        lemma_hex_digit_char(b[i / 2] as int / 16);
        lemma_hex_digit_char(b[i / 2] as int % 16);
        assert(e[i] == t[i] as u8);
    }
    assert(!exists|i: int| 0 <= i < e.len() && !#[trigger] is_hex_byte(e[i]));
    let d = hex_decoded(e).unwrap();
    assert forall|i: int| 0 <= i < b.len() implies d[i] == b[i] by {
        lemma_hex_digit_char(b[i] as int / 16);
        lemma_hex_digit_char(b[i] as int % 16);
        assert(e[2 * i] == t[2 * i] as u8);
        assert(e[2 * i + 1] == t[2 * i + 1] as u8);
        assert((2 * i) / 2 == i);
        assert((2 * i + 1) / 2 == i);
        assert((2 * i) % 2 == 0);
        assert((2 * i + 1) % 2 == 1);
    }
    assert(d =~= b);
}

/// A hex digit character is ASCII and its byte reads back as its value.
pub proof fn lemma_hex_digit_char(n: int)
    requires
        0 <= n < 16,
    ensures
        '\0' <= hex_digit_char(n) <= '\u{7f}',
        is_hex_byte(hex_digit_char(n) as u8),
        hex_byte_value(hex_digit_char(n) as u8) == n,
{
}

/// `hex::encode`: lowercase hex text of the bytes, two digits per byte.
#[verifier::external_body]
pub(crate) fn hex_encode(data: &[u8]) -> (r: String)
    ensures
        r@ == hex_text(data@),
{
    hex::encode(data)
}

/// `hex::decode` on the bytes of a text: the bytes it spells, or `None` where
/// its length is odd or it holds a byte that is not a hex digit (either case).
#[verifier::external_body]
pub(crate) fn hex_decode(data: &[u8]) -> (r: Option<Vec<u8>>)
    ensures
        r matches Some(v) ==> hex_decoded(data@) == Some(v@),
        r is None ==> hex_decoded(data@) is None,
{
    hex::decode(data).ok()
}

/// The text of the error that `hex::decode` gives for `data`.
pub uninterp spec fn hex_error_text(data: Seq<u8>) -> Seq<char>;

/// `hex::decode` with its error's text: the bytes that `data` spells, or
/// the text where its length is odd or a byte is not a hex digit.
#[verifier::external_body]
pub(crate) fn hex_decode_reporting(data: &[u8]) -> (r: Result<Vec<u8>, String>)
    ensures
        match hex_decoded(data@) {
            Some(b) => r matches Ok(v) && v@ == b,
            None => r matches Err(e) && e@ == hex_error_text(data@),
        },
{
    match hex::decode(data) {
        Ok(v) => Ok(v),
        Err(e) => Err(e.to_string()),
    }
}

/// What `base64::engine::general_purpose::STANDARD.decode(s)` gives: the
/// decoded bytes, or the text of its error.
pub uninterp spec fn base64_reading(s: Seq<char>) -> Result<Seq<u8>, Seq<char>>;

/// `STANDARD.decode(s)` from the `base64` crate.
#[verifier::external_body]
pub(crate) fn base64_decode(s: &str) -> (r: Result<Vec<u8>, String>)
    ensures
        match r {
            Ok(v) => base64_reading(s@) == Ok::<Seq<u8>, Seq<char>>(v@),
            Err(e) => base64_reading(s@) == Err::<Seq<u8>, Seq<char>>(e@),
        },
{
    match base64::Engine::decode(&base64::engine::general_purpose::STANDARD, s) {
        Ok(v) => Ok(v),
        Err(e) => Err(e.to_string()),
    }
}

} // verus!
