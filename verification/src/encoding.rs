//! Text encodings of binary data: base64, lowercase hexadecimal and UTF-8.

use vstd::prelude::*;
use vstd::string::StringSliceAdditionalSpecFns;
use vstd::utf8::{decode_utf8, encode_utf8, encode_utf8_decode_utf8, valid_utf8};

verus! {

/// The error stack that OpenSSL reports when one of its operations fails.
#[verifier::external_type_specification]
#[verifier::external_body]
pub struct ExErrorStack(openssl::error::ErrorStack);

/// The base64 text that `openssl::base64::encode_block` produces for `bytes`.
pub uninterp spec fn base64_text(bytes: Seq<u8>) -> Seq<char>;

/// The bytes that `openssl::base64::decode_block` reads from `text`, or `None`
/// where it rejects the text.
pub uninterp spec fn base64_bytes(text: Seq<char>) -> Option<Seq<u8>>;

/// The longest input whose base64 text still fits the signed C integer that
/// OpenSSL counts lengths with.
pub const BASE64_MAX_INPUT: usize = 0x5fff_fff0;

/// The longest byte length that OpenSSL accepts for one buffer.
pub const OPENSSL_MAX_LEN: usize = 0x7fff_ffff;

/// Whether the UTF-8 form of `text` is short enough for OpenSSL to take.
pub open spec fn fits(text: Seq<char>) -> bool {
    encode_utf8(text).len() <= OPENSSL_MAX_LEN
}

/// Tells whether OpenSSL can take `s` as one buffer.
pub fn fits_openssl(s: &str) -> (b: bool)
    ensures
        b == fits(s@),
{
    s.as_bytes().len() <= OPENSSL_MAX_LEN
}

/// Calls `openssl::base64::encode_block`.
///
/// Trusted: the result is the padded, single-line base64 text of `src`,
/// `decode_block` reads `src` back from it, and its length in bytes still
/// fits a C integer. Inputs whose encoded length would overflow a C integer
/// make the outside function panic and are excluded.
#[verifier::external_body]
pub(crate) fn base64_encode(src: &[u8]) -> (text: String)
    requires
        src@.len() <= BASE64_MAX_INPUT,
    ensures
        text@ == base64_text(src@),
        base64_bytes(text@) == Some(src@),
        fits(text@),
{
    openssl::base64::encode_block(src)
}

/// Calls `openssl::base64::decode_block`.
///
/// Trusted: the outcome depends on the text alone. Texts longer than a C
/// integer can count make the outside function panic and are excluded.
#[verifier::external_body]
pub(crate) fn base64_decode(src: &str) -> (r: Result<Vec<u8>, openssl::error::ErrorStack>)
    requires
        src.spec_bytes().len() <= OPENSSL_MAX_LEN,
    ensures
        match r {
            Ok(bytes) => base64_bytes(src@) == Some(bytes@),
            Err(_) => base64_bytes(src@) is None,
        },
{
    openssl::base64::decode_block(src)
}

/// Renders an OpenSSL error stack through its `Display` impl.
///
/// Trusted: nothing is claimed of the text, which depends on the installed
/// OpenSSL.
#[verifier::external_body]
pub(crate) fn stack_text(stack: &openssl::error::ErrorStack) -> (text: String) {
    stack.to_string()
}

/// Calls `String::from_utf8`.
///
/// Trusted: it succeeds exactly on well-formed UTF-8, and the string then
/// holds the very bytes it was given.
#[verifier::external_body]
pub(crate) fn utf8_bytes_to_string(bytes: Vec<u8>) -> (r: Option<String>)
    ensures
        r is Some <==> valid_utf8(bytes@),
        r matches Some(s) ==> encode_utf8(s@) == bytes@,
{
    String::from_utf8(bytes).ok()
}

/// Reads bytes as UTF-8 text.
pub fn utf8_string(bytes: Vec<u8>) -> (r: Option<String>)
    ensures
        r is Some <==> valid_utf8(bytes@),
        r matches Some(s) ==> s@ == decode_utf8(bytes@) && encode_utf8(s@) == bytes@,
{
    let r = utf8_bytes_to_string(bytes);
    proof {
        if r is Some {
            encode_utf8_decode_utf8(r->Some_0@);
        }
    }
    r
}

/// The lowercase hexadecimal digit for a value below sixteen.
pub open spec fn hex_digit(n: int) -> char {
    if n < 10 {
        ((48 + n) as u8) as char
    } else {
        ((87 + n) as u8) as char
    }
}

/// The lowercase hexadecimal rendering of `bytes`: two digits per byte, the
/// high half first.
pub open spec fn hex_text(bytes: Seq<u8>) -> Seq<char> {
    Seq::new(
        2 * bytes.len(),
        |i: int|
            if i % 2 == 0 {
                hex_digit(bytes[i / 2] as int / 16)
            } else {
                hex_digit(bytes[i / 2] as int % 16)
            },
    )
}

/// Whether `c` is a digit of lowercase hexadecimal.
pub open spec fn is_lower_hex(c: char) -> bool {
    ('0' <= c && c <= '9') || ('a' <= c && c <= 'f')
}

/// The hexadecimal text of bytes has two characters for each byte, and all
/// of them are digits of lowercase hexadecimal.
pub proof fn lemma_hex_text_shape(bytes: Seq<u8>)
    ensures
        hex_text(bytes).len() == 2 * bytes.len(),
        forall|i: int| 0 <= i < 2 * bytes.len() ==> is_lower_hex(#[trigger] hex_text(bytes)[i]),
{
    assert forall|i: int| 0 <= i < 2 * bytes.len() implies is_lower_hex(
        #[trigger] hex_text(bytes)[i],
    ) by {
        let b = bytes[i / 2] as int;
        assert(0 <= b / 16 < 16 && 0 <= b % 16 < 16);
        lemma_hex_digit_is_lower_hex(b / 16);
        lemma_hex_digit_is_lower_hex(b % 16);
    }
}

/// The digit for a value below sixteen is a digit of lowercase hexadecimal.
pub proof fn lemma_hex_digit_is_lower_hex(n: int)
    requires
        0 <= n < 16,
    ensures
        is_lower_hex(hex_digit(n)),
{
}

fn hex_digit_of(n: u8) -> (c: char)
    requires
        n < 16,
    ensures
        c == hex_digit(n as int),
{
    if n < 10 {
        (48 + n) as char
    } else {
        (87 + n) as char
    }
}

/// Renders `bytes` in lowercase hexadecimal.
pub fn hex_encode(bytes: &[u8]) -> (text: String)
    ensures
        text@ == hex_text(bytes@),
{
    let mut text = String::new();
    let mut i: usize = 0;
    while i < bytes.len()
        invariant
            i <= bytes.len(),
            text@ == hex_text(bytes@.take(i as int)),
        decreases bytes.len() - i,
    {
        let b: u8 = bytes[i];
        text.push(hex_digit_of(b / 16));
        text.push(hex_digit_of(b % 16));
        assert(text@ =~= hex_text(bytes@.take(i + 1)));
        i += 1;
    }
    assert(bytes@.take(i as int) =~= bytes@);
    text
}

} // verus!
