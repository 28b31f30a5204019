//! The decode pipeline: a blob of base64 text holding a JSON array of strings
//! becomes a list of patterns, or the stage at which it was rejected.

use crate::matcher::text_seqs;
use crate::matcher::LoadError;
use core::str::Utf8Error;
use vstd::prelude::*;
use vstd::utf8::decode_utf8;
use vstd::utf8::valid_utf8;

verus! {

#[verifier::external_type_specification]
#[verifier::external_body]
pub struct ExUtf8Error(Utf8Error);

#[verifier::external_type_specification]
#[verifier::external_body]
pub struct ExBase64DecodeError(base64::DecodeError);

#[verifier::external_type_specification]
#[verifier::external_body]
pub struct ExJsonError(serde_json::Error);

/// The bytes that standard base64 (with padding) decodes the text to, if it
/// is well-formed.
pub uninterp spec fn base64_decoding(text: Seq<char>) -> Option<Seq<u8>>;

/// The strings of a JSON array of strings held in the bytes, if they hold one.
pub uninterp spec fn json_string_array(bytes: Seq<u8>) -> Option<Seq<Seq<char>>>;

/// Relies on `std::str::from_utf8`: succeeds exactly on valid UTF-8, with the
/// characters that the bytes encode.
#[verifier::external_body]
pub(crate) fn str_from_utf8<'a>(bytes: &'a [u8]) -> (r: Result<&'a str, Utf8Error>)
    ensures
        r is Ok <==> valid_utf8(bytes@),
        r matches Ok(s) ==> s@ == decode_utf8(bytes@),
{
    core::str::from_utf8(bytes)
}

/// Relies on `base64::Engine::decode` with the `STANDARD` engine.
#[verifier::external_body]
fn base64_decode(text: &str) -> (r: Result<Vec<u8>, base64::DecodeError>)
    ensures
        match r {
            Ok(b) => base64_decoding(text@) == Some(b@),
            Err(_) => base64_decoding(text@) is None,
        },
{
    base64::Engine::decode(&base64::engine::general_purpose::STANDARD, text)
}

/// Relies on `serde_json::from_slice` into a `Vec<String>`.
#[verifier::external_body]
fn json_strings(bytes: &[u8]) -> (r: Result<Vec<String>, serde_json::Error>)
    ensures
        match r {
            Ok(v) => json_string_array(bytes@) == Some(text_seqs(v@)),
            Err(_) => json_string_array(bytes@) is None,
        },
{
    serde_json::from_slice::<Vec<String>>(bytes)
}

/// What decoding a blob yields: the pattern list, or the first stage that
/// rejects it.
pub open spec fn decode_outcome(blob: Seq<u8>) -> Result<Seq<Seq<char>>, LoadError> {
    if blob.len() == 0 {
        Err(LoadError::EmptyInput)
    } else if !valid_utf8(blob) {
        Err(LoadError::InvalidEncoding)
    } else {
        match base64_decoding(decode_utf8(blob)) {
            None => Err(LoadError::InvalidEncoding),
            Some(raw) => match json_string_array(raw) {
                None => Err(LoadError::InvalidPayload),
                Some(patterns) => Ok(patterns),
            },
        }
    }
}

/// Decodes a blob of base64 text that holds a JSON array of strings. Each
/// stage that fails gives its own error and nothing else is produced.
pub fn decode_patterns(blob: &[u8]) -> (r: Result<Vec<String>, LoadError>)
    ensures
        match r {
            Ok(v) => decode_outcome(blob@) == Ok::<Seq<Seq<char>>, LoadError>(text_seqs(v@)),
            Err(e) => decode_outcome(blob@) == Err::<Seq<Seq<char>>, LoadError>(e),
        },
{
    if blob.len() == 0 {
        return Err(LoadError::EmptyInput);
    }
    let text = match str_from_utf8(blob) {
        Ok(s) => s,
        Err(_) => return Err(LoadError::InvalidEncoding),
    };
    let raw = match base64_decode(text) {
        Ok(b) => b,
        Err(_) => return Err(LoadError::InvalidEncoding),
    };
    match json_strings(raw.as_slice()) {
        Ok(v) => Ok(v),
        Err(_) => Err(LoadError::InvalidPayload),
    }
}

} // verus!
