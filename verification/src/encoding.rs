//! Encodings of text and bytes: base64, percent-encoding, letter case.

use vstd::prelude::*;
use vstd::utf8::*;

verus! {

// ---------------------------------------------------------------------------
// Base64
// ---------------------------------------------------------------------------

/// The base64 text of bytes, in the URL-safe alphabet and without padding.
pub uninterp spec fn base64_text(bytes: Seq<u8>) -> Seq<char>;

/// The bytes that a base64 text stands for, or the message that says why it
/// stands for none.
pub uninterp spec fn base64_bytes(text: Seq<char>) -> Result<Seq<u8>, Seq<char>>;

/// The characters of base64 in the URL-safe alphabet: letters, digits, `-` and
/// `_`.
pub open spec fn is_base64_char(c: char) -> bool {
    ||| 'A' <= c <= 'Z'
    ||| 'a' <= c <= 'z'
    ||| '0' <= c <= '9'
    ||| c == '-'
    ||| c == '_'
}

/// Calls `base64::Engine::encode` of the engine `URL_SAFE_NO_PAD`: the result
/// depends on the bytes alone, has four characters for each three bytes
/// (rounded up), all of them of the URL-safe alphabet, and decodes to the same
/// bytes.
#[verifier::external_body]
pub(crate) fn encode_base64(bytes: &Vec<u8>) -> (text: String)
    ensures
        text@ == base64_text(bytes@),
        text@.len() == (bytes@.len() * 4 + 2) / 3,
        forall|i: int| 0 <= i < text@.len() ==> is_base64_char(#[trigger] text@[i]),
        base64_bytes(text@) is Ok && base64_bytes(text@)->Ok_0 == bytes@,
{
    base64::Engine::encode(&base64::engine::general_purpose::URL_SAFE_NO_PAD, bytes)
}

/// Calls `base64::Engine::decode` of the engine `URL_SAFE_NO_PAD`: the bytes,
/// or the error's message, depend on the text alone.
#[verifier::external_body]
pub(crate) fn decode_base64(text: &str) -> (bytes: Result<Vec<u8>, String>)
    ensures
        match bytes {
            Ok(b) => base64_bytes(text@) is Ok && base64_bytes(text@)->Ok_0 == b@,
            Err(e) => base64_bytes(text@) is Err && base64_bytes(text@)->Err_0 == e@,
        },
{
    base64::Engine::decode(&base64::engine::general_purpose::URL_SAFE_NO_PAD, text)
        .map_err(|e| e.to_string())
}

// ---------------------------------------------------------------------------
// Percent-encoding
// ---------------------------------------------------------------------------

/// The bytes that percent-encoding leaves as they are: ASCII letters and
/// digits, and `-`, `.`, `_`, `~`.
pub open spec fn is_unreserved(b: u8) -> bool {
    ||| 0x30 <= b <= 0x39
    ||| 0x41 <= b <= 0x5A
    ||| 0x61 <= b <= 0x7A
    ||| b == 0x2D
    ||| b == 0x2E
    ||| b == 0x5F
    ||| b == 0x7E
}

/// The character of a hexadecimal digit, in upper case.
pub open spec fn hex_char(d: int) -> char {
    if d < 10 {
        (48 + d) as char
    } else {
        (55 + d) as char
    }
}

/// The value of a hexadecimal digit in either case.
pub open spec fn hex_value(b: u8) -> Option<int> {
    if 0x30 <= b <= 0x39 {
        Some(b - 0x30)
    } else if 0x41 <= b <= 0x46 {
        Some(b - 0x41 + 10)
    } else if 0x61 <= b <= 0x66 {
        Some(b - 0x61 + 10)
    } else {
        None
    }
}

/// Bytes in percent-encoding: each as its character or as `%` and two digits.
pub open spec fn percent_encoded(bytes: Seq<u8>) -> Seq<char>
    decreases bytes.len(),
{
    if bytes.len() == 0 {
        Seq::empty()
    } else {
        let b = bytes.last();
        let before = percent_encoded(bytes.drop_last());
        if is_unreserved(b) {
            before.push(b as char)
        } else {
            before + seq!['%', hex_char(b as int / 16), hex_char(b as int % 16)]
        }
    }
}

/// The bytes begin with `%` and two hexadecimal digits.
pub open spec fn begins_with_escape(bytes: Seq<u8>) -> bool {
    bytes.len() >= 3 && bytes[0] == 0x25 && hex_value(bytes[1]) is Some && hex_value(bytes[2])
        is Some
}

/// Bytes with each `%` and two hexadecimal digits replaced by the byte that
/// they denote, and every other byte kept.
pub open spec fn percent_decoded(bytes: Seq<u8>) -> Seq<u8>
    decreases bytes.len(),
{
    if bytes.len() == 0 {
        Seq::empty()
    } else if begins_with_escape(bytes) {
        seq![(hex_value(bytes[1])->0 * 16 + hex_value(bytes[2])->0) as u8] + percent_decoded(
            bytes.skip(3),
        )
    } else {
        seq![bytes[0]] + percent_decoded(bytes.skip(1))
    }
}

/// The text in percent-encoding.
pub open spec fn url_encoded(text: Seq<char>) -> Seq<char> {
    percent_encoded(encode_utf8(text))
}

/// The text that a percent-encoded text stands for, where what it stands for
/// is text at all.
pub open spec fn url_decoded(text: Seq<char>) -> Option<Seq<char>> {
    let bytes = percent_decoded(encode_utf8(text));
    if valid_utf8(bytes) {
        Some(decode_utf8(bytes))
    } else {
        None
    }
}

/// Calls `urlencoding::encode`, which percent-encodes every byte but the
/// unreserved ones.
#[verifier::external_body]
pub(crate) fn url_encode(text: &str) -> (encoded: String)
    ensures
        encoded@ == url_encoded(text@),
{
    urlencoding::encode(text).into_owned()
}

/// Calls `urlencoding::decode`, which replaces the complete escapes, keeps the
/// rest, and fails where the bytes are not UTF-8.
#[verifier::external_body]
pub(crate) fn url_decode(text: &str) -> (decoded: Option<String>)
    ensures
        match decoded {
            Some(d) => url_decoded(text@) == Some(d@),
            None => url_decoded(text@) is None,
        },
{
    urlencoding::decode(text).ok().map(|d| d.into_owned())
}

// ---------------------------------------------------------------------------
// Letter case
// ---------------------------------------------------------------------------

/// The text in lower case, as Unicode has it.
pub uninterp spec fn lowercase(text: Seq<char>) -> Seq<char>;

/// Specifies [`str::to_lowercase`]: the result depends on the text alone and
/// is named `lowercase`.
pub assume_specification[ str::to_lowercase ](text: &str) -> (lower: String)
    ensures
        lower@ == lowercase(text@),
;

} // verus!
