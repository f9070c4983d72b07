//! Base64 text, through the two engines of the `base64` crate that this
//! library uses: the standard alphabet with padding, and the url-safe
//! alphabet without.

use base64::engine::general_purpose::{STANDARD, URL_SAFE_NO_PAD};
use base64::Engine;
use vstd::prelude::*;

verus! {

/// The text that `Engine::encode` gives for these bytes: with `url_safe`
/// under the engine `URL_SAFE_NO_PAD`, without it under `STANDARD`.
pub uninterp spec fn base64_encoded(url_safe: bool, bytes: Seq<u8>) -> Seq<char>;

/// The bytes that `Engine::decode` gives for this text under the same two
/// engines, or `None` where it refuses the text.
pub uninterp spec fn base64_decoded(url_safe: bool, text: Seq<char>) -> Option<Seq<u8>>;

/// A symbol of the url-safe alphabet: a letter, a digit, `-` or `_`.
pub open spec fn is_url_safe_symbol(c: char) -> bool {
    ('A' <= c && c <= 'Z') || ('a' <= c && c <= 'z') || ('0' <= c && c <= '9') || c == '-' || c
        == '_'
}

/// Every character of the text is a symbol of the url-safe alphabet.
pub open spec fn is_url_safe_text(text: Seq<char>) -> bool {
    forall|i: int| 0 <= i < text.len() ==> is_url_safe_symbol(#[trigger] text[i])
}

#[verifier::external_type_specification]
#[verifier::external_body]
pub struct ExDecodeError(base64::DecodeError);

/// Calls `STANDARD.encode`. Trusted: the result is the named text, and the
/// same engine decodes it back to the bytes given.
#[verifier::external_body]
pub(crate) fn encode_standard(bytes: &[u8]) -> (text: String)
    ensures
        text@ == base64_encoded(false, bytes@),
        base64_decoded(false, text@) == Some(bytes@),
{
    STANDARD.encode(bytes)
}

/// Calls `URL_SAFE_NO_PAD.encode`. Trusted: the result is the named text, and
/// the same engine decodes it back to the bytes given.
#[verifier::external_body]
pub(crate) fn encode_url_safe(bytes: &[u8]) -> (text: String)
    ensures
        text@ == base64_encoded(true, bytes@),
        base64_decoded(true, text@) == Some(bytes@),
{
    URL_SAFE_NO_PAD.encode(bytes)
}

/// Calls `STANDARD.decode`. Trusted: it succeeds exactly where the name holds
/// bytes, and with those bytes.
#[verifier::external_body]
pub(crate) fn decode_standard(text: &str) -> (r: Result<Vec<u8>, base64::DecodeError>)
    ensures
        match r {
            Ok(bytes) => base64_decoded(false, text@) == Some(bytes@),
            Err(_) => base64_decoded(false, text@) is None,
        },
{
    STANDARD.decode(text)
}

/// Calls `URL_SAFE_NO_PAD.decode`. Trusted: it succeeds exactly where the
/// name holds bytes, and with those bytes; and it refuses every text that
/// holds a character outside the url-safe alphabet, the padding sign `=`
/// among them.
#[verifier::external_body]
pub(crate) fn decode_url_safe(text: &str) -> (r: Result<Vec<u8>, base64::DecodeError>)
    ensures
        match r {
            Ok(bytes) => base64_decoded(true, text@) == Some(bytes@),
            Err(_) => base64_decoded(true, text@) is None,
        },
        r is Ok ==> is_url_safe_text(text@),
{
    URL_SAFE_NO_PAD.decode(text)
}

} // verus!
