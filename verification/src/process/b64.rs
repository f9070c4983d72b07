//! Base64 transcoding of whole inputs.

use crate::cli::Base64Format;
use crate::error::TextError;
use crate::process::codec::{
    base64_decoded, base64_encoded, decode_standard, decode_url_safe, encode_standard,
    encode_url_safe,
};
use vstd::prelude::*;

verus! {

/// The text of `text` without the white space at its two ends, as
/// `str::trim` gives it.
pub uninterp spec fn trimmed(text: Seq<char>) -> Seq<char>;

/// Calls `str::trim`. Trusted: the result is the named text.
#[verifier::external_body]
fn trim_text(text: &str) -> (inner: &str)
    ensures
        inner@ == trimmed(text@),
{
    text.trim()
}

/// Whether a format uses the url-safe alphabet without padding.
pub open spec fn is_url_safe(format: Base64Format) -> bool {
    format == Base64Format::UrlSafe
}

/// Encodes bytes as base64 text in the chosen format.
pub fn process_encode(input: &[u8], format: Base64Format) -> (r: Result<String, TextError>)
    ensures
        r is Ok,
        r->Ok_0@ == base64_encoded(is_url_safe(format), input@),
        base64_decoded(is_url_safe(format), r->Ok_0@) == Some(input@),
{
    let encoded = match format {
        Base64Format::Standard => encode_standard(input),
        Base64Format::UrlSafe => encode_url_safe(input),
    };
    Ok(encoded)
}

/// The outcome owed once the decoder has answered.
pub open spec fn decode_outcome(decoded: Option<Seq<u8>>) -> Result<Seq<u8>, TextError> {
    match decoded {
        Some(bytes) => Ok(bytes),
        None => Err(TextError::Encoding),
    }
}

/// Decodes base64 text in the chosen format, after dropping the white space
/// at its two ends. Text that the decoder refuses is an encoding error.
pub fn process_decode(input: &str, format: Base64Format) -> (r: Result<Vec<u8>, TextError>)
    ensures
        match r {
            Ok(bytes) => decode_outcome(base64_decoded(is_url_safe(format), trimmed(input@)))
                == Ok::<Seq<u8>, TextError>(bytes@),
            Err(e) => decode_outcome(base64_decoded(is_url_safe(format), trimmed(input@)))
                == Err::<Seq<u8>, TextError>(e),
        },
{
    let text = trim_text(input);
    let decoded = match format {
        Base64Format::Standard => decode_standard(text),
        Base64Format::UrlSafe => decode_url_safe(text),
    };
    match decoded {
        Ok(bytes) => Ok(bytes),
        Err(_) => Err(TextError::Encoding),
    }
}

} // verus!
