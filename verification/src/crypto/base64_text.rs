//! Base64 text encoding of byte strings (URL-safe alphabet, padded).

use vstd::prelude::*;

use super::CryptographyError;

verus! {

#[verifier::external_type_specification]
#[verifier::external_body]
pub struct ExDecodeError(base64::DecodeError);

/// The character of the URL-safe base64 alphabet for a six-bit value:
/// `A`-`Z`, `a`-`z`, `0`-`9`, `-` and `_`.
pub open spec fn base64_char(v: int) -> char {
    if v < 26 {
        (65 + v) as char
    } else if v < 52 {
        (97 + v - 26) as char
    } else if v < 62 {
        (48 + v - 52) as char
    } else if v == 62 {
        '-'
    } else {
        '_'
    }
}

/// The URL-safe base64 text of `bytes`, padded with `=`: each three bytes become
/// four characters of six bits each, and a last group of one or two bytes becomes
/// two or three characters followed by `==` or `=`.
pub closed spec fn base64_encoded(bytes: Seq<u8>) -> Seq<char>
    decreases bytes.len(),
{
    let b0 = bytes[0] as int;
    let b1 = bytes[1] as int;
    let b2 = bytes[2] as int;
    if bytes.len() == 0 {
        Seq::empty()
    } else if bytes.len() == 1 {
        seq![base64_char(b0 / 4), base64_char((b0 % 4) * 16), '=', '=']
    } else if bytes.len() == 2 {
        seq![base64_char(b0 / 4), base64_char((b0 % 4) * 16 + b1 / 16), base64_char((b1 % 16) * 4), '=']
    } else {
        seq![
            base64_char(b0 / 4),
            base64_char((b0 % 4) * 16 + b1 / 16),
            base64_char((b1 % 16) * 4 + b2 / 64),
            base64_char(b2 % 64),
        ] + base64_encoded(bytes.subrange(3, bytes.len() as int))
    }
}

/// The bytes that the URL-safe base64 engine of the `base64` crate reads from `text`,
/// or `None` where it refuses the text.
pub uninterp spec fn base64_decoded(text: Seq<char>) -> Option<Seq<u8>>;

/// Calls `base64::Engine::encode` of `base64::engine::general_purpose::URL_SAFE`.
/// Trusted: the result is the padded URL-safe base64 text of `data`, as the
/// crate documents it.
#[verifier::external_body]
fn engine_encode(data: &[u8]) -> (text: String)
    ensures
        text@ == base64_encoded(data@),
{
    base64::Engine::encode(&base64::engine::general_purpose::URL_SAFE, data)
}

/// Calls `base64::Engine::decode` of `base64::engine::general_purpose::URL_SAFE`.
/// Trusted: it fails exactly where the engine refuses the text, and gives back the
/// bytes that the engine reads; the crate's documented round trip (decoding what
/// `encode` wrote gives the encoded bytes back) is stated for the text handed in.
#[verifier::external_body]
fn engine_decode(text: &str) -> (bytes: Result<Vec<u8>, base64::DecodeError>)
    ensures
        bytes is Ok <==> base64_decoded(text@) is Some,
        bytes matches Ok(b) ==> b@ == base64_decoded(text@).unwrap(),
        bytes matches Ok(b) ==> forall|source: Seq<u8>|
            text@ == #[trigger] base64_encoded(source) ==> b@ == source,
        bytes is Err ==> forall|source: Seq<u8>| text@ != #[trigger] base64_encoded(source),
{
    base64::Engine::decode(&base64::engine::general_purpose::URL_SAFE, text)
}

/// Encode bytes as base64 text.
pub fn base64_encode(data: &[u8]) -> (text: String)
    ensures
        text@ == base64_encoded(data@),
{
    engine_encode(data)
}

/// Decode base64 text into bytes.
pub fn base64_decode(text: &str) -> (bytes: Result<Vec<u8>, CryptographyError>)
    ensures
        bytes is Ok <==> base64_decoded(text@) is Some,
        bytes matches Ok(b) ==> b@ == base64_decoded(text@).unwrap(),
        bytes matches Err(e) ==> e == CryptographyError::Base64DecodeFailed,
        forall|source: Seq<u8>|
            text@ == #[trigger] base64_encoded(source) ==> (bytes matches Ok(b) && b@
                == source),
{
    match engine_decode(text) {
        Ok(b) => Ok(b),
        Err(_) => Err(CryptographyError::Base64DecodeFailed),
    }
}

} // verus!
