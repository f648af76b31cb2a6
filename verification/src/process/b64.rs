//! The signature codec: base64 of arbitrary byte buffers, in the standard
//! padded alphabet and in the URL-safe unpadded alphabet that signatures
//! cross the library boundary in. Decoding is the exact inverse of encoding
//! and rejects anything else, so `decode(encode(b)) == b` for every buffer.

use crate::cli::base64::Base64Format;
use crate::errors::TextError;
use base64::Engine;
use vstd::prelude::*;

verus! {

/// The text that the URL-safe unpadded base64 alphabet assigns to a byte
/// buffer; a function of the buffer alone.
pub uninterp spec fn b64url_of(b: Seq<u8>) -> Seq<char>;

/// The text that the standard padded base64 alphabet assigns to a byte
/// buffer; a function of the buffer alone.
pub uninterp spec fn b64std_of(b: Seq<u8>) -> Seq<char>;

#[verifier::external_type_specification]
#[verifier::external_body]
pub struct ExDecodeError(base64::DecodeError);

/// Relies on `base64::engine::general_purpose::URL_SAFE_NO_PAD.encode`:
/// a deterministic encoding of the input bytes, empty exactly on empty input.
#[verifier::external_body]
fn b64url_encode(data: &[u8]) -> (r: String)
    ensures
        r@ == b64url_of(data@),
        data@.len() == 0 <==> r@.len() == 0,
{
    base64::engine::general_purpose::URL_SAFE_NO_PAD.encode(data)
}

/// Relies on `base64::engine::general_purpose::URL_SAFE_NO_PAD.decode`:
/// with padding forbidden and trailing bits rejected, it accepts exactly the
/// canonical unpadded URL-safe encodings and inverts the encoder on them.
#[verifier::external_body]
fn b64url_decode(s: &str) -> (r: Result<Vec<u8>, base64::DecodeError>)
    ensures
        r matches Err(_) ==> forall|b: Seq<u8>| s@ != b64url_of(b),
        r matches Ok(v) ==> s@ == b64url_of(v@) && (forall|b: Seq<u8>|
            s@ == b64url_of(b) ==> v@ == b),
{
    base64::engine::general_purpose::URL_SAFE_NO_PAD.decode(s)
}

/// Relies on `base64::engine::general_purpose::STANDARD.encode`:
/// a deterministic encoding of the input bytes, empty exactly on empty input.
#[verifier::external_body]
fn b64std_encode(data: &[u8]) -> (r: String)
    ensures
        r@ == b64std_of(data@),
        data@.len() == 0 <==> r@.len() == 0,
{
    base64::engine::general_purpose::STANDARD.encode(data)
}

/// Relies on `base64::engine::general_purpose::STANDARD.decode`:
/// with canonical padding demanded and trailing bits rejected, it accepts
/// exactly the canonical padded encodings and inverts the encoder on them.
#[verifier::external_body]
fn b64std_decode(s: &str) -> (r: Result<Vec<u8>, base64::DecodeError>)
    ensures
        r matches Err(_) ==> forall|b: Seq<u8>| s@ != b64std_of(b),
        r matches Ok(v) ==> s@ == b64std_of(v@) && (forall|b: Seq<u8>|
            s@ == b64std_of(b) ==> v@ == b),
{
    base64::engine::general_purpose::STANDARD.decode(s)
}

/// Encode signature bytes into the URL-safe, unpadded textual form in which
/// signatures cross the library boundary.
pub fn encode_signature(sig: &[u8]) -> (r: String)
    ensures
        r@ == b64url_of(sig@),
{
    b64url_encode(sig)
}

/// Decode the textual form of a signature back into its bytes.
///
/// Round trip: for every byte buffer `b`, including the empty one, decoding
/// `encode_signature(b)` succeeds and returns exactly `b`; any text that is
/// not the encoding of some buffer is rejected with `EncodingError`.
pub fn decode_signature(s: &str) -> (r: Result<Vec<u8>, TextError>)
    ensures
        forall|b: Seq<u8>| s@ == b64url_of(b) ==> (r matches Ok(v) && v@ == b),
        r matches Ok(v) ==> s@ == b64url_of(v@),
        r matches Err(e) ==> e == TextError::EncodingError
            && forall|b: Seq<u8>| s@ != b64url_of(b),
{
    match b64url_decode(s) {
        Ok(v) => Ok(v),
        Err(_) => Err(TextError::EncodingError),
    }
}

/// Encode a byte buffer under the chosen base64 alphabet.
pub fn process_encode(data: &[u8], format: Base64Format) -> (r: String)
    ensures
        match format {
            Base64Format::Standard => r@ == b64std_of(data@),
            Base64Format::UrlSafe => r@ == b64url_of(data@),
        },
{
    match format {
        Base64Format::Standard => b64std_encode(data),
        Base64Format::UrlSafe => b64url_encode(data),
    }
}

/// Decode base64 text under the chosen alphabet; the exact inverse of
/// `process_encode` on that alphabet, and `EncodingError` on anything else.
pub fn process_decode(s: &str, format: Base64Format) -> (r: Result<Vec<u8>, TextError>)
    ensures
        match format {
            Base64Format::Standard => {
                &&& forall|b: Seq<u8>| s@ == b64std_of(b) ==> (r matches Ok(v) && v@ == b)
                &&& r matches Ok(v) ==> s@ == b64std_of(v@)
                &&& r matches Err(e) ==> e == TextError::EncodingError
                    && forall|b: Seq<u8>| s@ != b64std_of(b)
            },
            Base64Format::UrlSafe => {
                &&& forall|b: Seq<u8>| s@ == b64url_of(b) ==> (r matches Ok(v) && v@ == b)
                &&& r matches Ok(v) ==> s@ == b64url_of(v@)
                &&& r matches Err(e) ==> e == TextError::EncodingError
                    && forall|b: Seq<u8>| s@ != b64url_of(b)
            },
        },
{
    let decoded = match format {
        Base64Format::Standard => b64std_decode(s),
        Base64Format::UrlSafe => b64url_decode(s),
    };
    match decoded {
        Ok(v) => Ok(v),
        Err(_) => Err(TextError::EncodingError),
    }
}

} // verus!
