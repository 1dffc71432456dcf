//! The textual codec: wraps a byte sequence in a URL-safe, padding-free
//! ASCII token, so that it can stand unescaped in a URL path segment.

use vstd::prelude::*;
use crate::codec::DecodeError;

verus! {

/// A character of the URL-safe alphabet: `A-Z`, `a-z`, `0-9`, `-`, `_`.
pub open spec fn is_url_safe_char(c: char) -> bool {
    ||| ('A' as u32) <= (c as u32) && (c as u32) <= ('Z' as u32)
    ||| ('a' as u32) <= (c as u32) && (c as u32) <= ('z' as u32)
    ||| ('0' as u32) <= (c as u32) && (c as u32) <= ('9' as u32)
    ||| c == '-'
    ||| c == '_'
}

/// The token that the URL-safe, padding-free textual encoding gives to a
/// byte sequence.
pub uninterp spec fn text_encoding(bytes: Seq<u8>) -> Seq<char>;

/// The byte sequence that the textual decoding gives to a token, or `None`
/// where the token is rejected.
pub uninterp spec fn text_decoding(token: Seq<char>) -> Option<Seq<u8>>;

/// Relies on base64::encode_config with URL_SAFE_NO_PAD: the output is drawn
/// from the URL-safe alphabet with no padding, depends on the input bytes
/// alone, and base64::decode_config maps it back to the input.
#[verifier::external_body]
fn b64_encode(bytes: &[u8]) -> (r: String)
    ensures
        r@ == text_encoding(bytes@),
        forall|i: int| 0 <= i < r@.len() ==> is_url_safe_char(#[trigger] r@[i]),
        text_decoding(r@) == Some(bytes@),
{
    base64::encode_config(bytes, base64::URL_SAFE_NO_PAD)
}

/// Relies on base64::decode_config with URL_SAFE_NO_PAD: the result depends
/// on the token alone, and any character outside the URL-safe alphabet other
/// than `=` makes it fail.
#[verifier::external_body]
fn b64_decode(token: &str) -> (r: Option<Vec<u8>>)
    ensures
        match r {
            Some(v) => text_decoding(token@) == Some(v@),
            None => text_decoding(token@) is None,
        },
        (exists|i: int|
            0 <= i < token@.len() && !is_url_safe_char(#[trigger] token@[i]) && token@[i] != '=')
            ==> r is None,
{
    match base64::decode_config(token, base64::URL_SAFE_NO_PAD) {
        Ok(v) => Some(v),
        Err(_) => None,
    }
}

/// Encodes a byte sequence as a URL-safe, padding-free ASCII token.
///
/// Every character of the token lies in the URL-safe alphabet (so the token
/// holds no `+`, `/` or `=`), and `decode_text` maps the token back to the
/// given bytes.
pub fn encode_text(bytes: &[u8]) -> (r: String)
    ensures
        r@ == text_encoding(bytes@),
        forall|i: int| 0 <= i < r@.len() ==> is_url_safe_char(#[trigger] r@[i]),
        text_decoding(r@) == Some(bytes@),
{
    b64_encode(bytes)
}

/// Decodes a URL-safe token back to its byte sequence.
///
/// Fails with `DecodeError::InvalidEncoding` exactly where the textual
/// decoding rejects the token; in particular any character outside the
/// URL-safe alphabet other than `=` is rejected.
pub fn decode_text(token: &str) -> (r: Result<Vec<u8>, DecodeError>)
    ensures
        match r {
            Ok(v) => text_decoding(token@) == Some(v@),
            Err(e) => text_decoding(token@) is None && e == DecodeError::InvalidEncoding,
        },
        (exists|i: int|
            0 <= i < token@.len() && !is_url_safe_char(#[trigger] token@[i]) && token@[i] != '=')
            ==> r is Err,
{
    match b64_decode(token) {
        Some(v) => Ok(v),
        None => Err(DecodeError::InvalidEncoding),
    }
}

} // verus!
