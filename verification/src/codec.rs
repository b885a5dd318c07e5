//! Base64, as the `base64` crate writes and reads it: the standard padded
//! alphabet, and the URL-safe one without padding that JWTs use.
use vstd::prelude::*;

verus! {

/// The standard base64 encoding (with padding) of a byte string.
pub uninterp spec fn base64_standard(data: Seq<u8>) -> Seq<char>;

/// The bytes that the standard base64 text `text` encodes, or `None` when
/// it is no valid padded standard base64.
pub uninterp spec fn base64_standard_decoded(text: Seq<u8>) -> Option<Seq<u8>>;

/// Calls `base64::engine::general_purpose::STANDARD.encode`.
///
/// Trusted: the result is the padded standard base64 text of the data,
/// four characters for every started group of three bytes.
#[verifier::external_body]
pub(crate) fn base64_encode(data: &[u8]) -> (r: String)
    ensures
        r@ == base64_standard(data@),
        r@.len() == 4 * ((data@.len() + 2) / 3),
{
    base64::Engine::encode(&base64::engine::general_purpose::STANDARD, data)
}

/// Calls `base64::engine::general_purpose::STANDARD.decode`; a refusal is
/// handed on as the text of the crate's `DecodeError`.
///
/// Trusted: the outcome only depends on the text.
#[verifier::external_body]
pub(crate) fn base64_decode(text: &[u8]) -> (r: Result<Vec<u8>, String>)
    ensures
        match r {
            Ok(v) => base64_standard_decoded(text@) == Some(v@),
            Err(_) => base64_standard_decoded(text@) is None,
        },
{
    base64::Engine::decode(&base64::engine::general_purpose::STANDARD, text).map_err(|e| e.to_string())
}

/// The bytes that the URL-safe, unpadded base64 text `text` encodes, or
/// `None` when it is no such text.
pub uninterp spec fn base64_url_decoded(text: Seq<u8>) -> Option<Seq<u8>>;

/// Calls `base64::engine::general_purpose::URL_SAFE_NO_PAD.decode`; a
/// refusal is handed on as the text of the crate's `DecodeError`.
///
/// Trusted: the outcome only depends on the text.
#[verifier::external_body]
pub(crate) fn base64_url_decode(text: &[u8]) -> (r: Result<Vec<u8>, String>)
    ensures
        match r {
            Ok(v) => base64_url_decoded(text@) == Some(v@),
            Err(_) => base64_url_decoded(text@) is None,
        },
{
    base64::Engine::decode(&base64::engine::general_purpose::URL_SAFE_NO_PAD, text).map_err(|e| e.to_string())
}

} // verus!
