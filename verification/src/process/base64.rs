//! Base64 text of bytes, and back.

use vstd::prelude::*;
use vstd::utf8::*;

use crate::cli::base64::Base64Format;
use crate::utils::string_from_utf8;

verus! {

/// Why a base64 text was refused.
#[derive(Debug, Clone, Copy, PartialEq, Eq, Structural)]
pub enum Base64Error {
    /// The text is not base64 in the chosen alphabet.
    InvalidBase64,
    /// The decoded bytes are not UTF-8 text.
    NotText,
}

/// The base64 text of `data`, as the general-purpose engines of the
/// `base64` crate write it: in the URL-safe alphabet or the standard one,
/// with padding or without.
pub uninterp spec fn base64_encoding(url_safe: bool, padded: bool, data: Seq<u8>) -> Seq<char>;

/// The bytes that the general-purpose engines of the `base64` crate read
/// from `text`, or nothing where they refuse it.
pub uninterp spec fn base64_decoding(url_safe: bool, padded: bool, text: Seq<u8>) -> Option<
    Seq<u8>,
>;

/// The text `text` without the white space at its two ends, as `str::trim`
/// returns it.
pub uninterp spec fn trimmed(text: Seq<char>) -> Seq<char>;

/// Whether the base64 text of `len` bytes is no longer than an allocation
/// can be.
pub open spec fn encoded_fits(len: nat) -> bool {
    (len / 3 + 1) * 4 <= isize::MAX
}

/// Makes `base64::DecodeError` known: the error is carried through and
/// never looked into.
#[verifier::external_type_specification]
#[verifier::external_body]
pub struct ExDecodeError(::base64::DecodeError);

/// Calls `Engine::encode` on `base64::prelude::BASE64_STANDARD`. Trusted:
/// the result is the named text in the standard alphabet, padded.
#[verifier::external_body]
fn encode_standard(data: &[u8]) -> (text: String)
    requires
        encoded_fits(data@.len()),
    ensures
        text@ == base64_encoding(false, true, data@),
{
    ::base64::Engine::encode(&::base64::prelude::BASE64_STANDARD, data)
}

/// Calls `Engine::encode` on `base64::prelude::BASE64_URL_SAFE`. Trusted:
/// the result is the named text in the URL-safe alphabet, padded.
#[verifier::external_body]
fn encode_url_safe(data: &[u8]) -> (text: String)
    requires
        encoded_fits(data@.len()),
    ensures
        text@ == base64_encoding(true, true, data@),
{
    ::base64::Engine::encode(&::base64::prelude::BASE64_URL_SAFE, data)
}

/// Calls `Engine::encode` on `base64::prelude::BASE64_URL_SAFE_NO_PAD`.
/// Trusted: the result is the named text in the URL-safe alphabet, without
/// padding.
#[verifier::external_body]
pub(crate) fn encode_url_safe_no_pad(data: &[u8]) -> (text: String)
    requires
        encoded_fits(data@.len()),
    ensures
        text@ == base64_encoding(true, false, data@),
{
    ::base64::Engine::encode(&::base64::prelude::BASE64_URL_SAFE_NO_PAD, data)
}

/// Calls `Engine::decode` on `base64::prelude::BASE64_STANDARD`. Trusted:
/// it succeeds where the named bytes exist, and returns them.
#[verifier::external_body]
fn decode_standard(text: &[u8]) -> (r: Result<Vec<u8>, ::base64::DecodeError>)
    ensures
        r is Ok <==> base64_decoding(false, true, text@) is Some,
        r matches Ok(data) ==> base64_decoding(false, true, text@) == Some(data@),
{
    ::base64::Engine::decode(&::base64::prelude::BASE64_STANDARD, text)
}

/// Calls `Engine::decode` on `base64::prelude::BASE64_URL_SAFE`. Trusted:
/// it succeeds where the named bytes exist, and returns them.
#[verifier::external_body]
fn decode_url_safe(text: &[u8]) -> (r: Result<Vec<u8>, ::base64::DecodeError>)
    ensures
        r is Ok <==> base64_decoding(true, true, text@) is Some,
        r matches Ok(data) ==> base64_decoding(true, true, text@) == Some(data@),
{
    ::base64::Engine::decode(&::base64::prelude::BASE64_URL_SAFE, text)
}

/// Calls `Engine::decode` on `base64::prelude::BASE64_URL_SAFE_NO_PAD`.
/// Trusted: it succeeds where the named bytes exist, and returns them.
#[verifier::external_body]
pub(crate) fn decode_url_safe_no_pad(text: &[u8]) -> (r: Result<Vec<u8>, ::base64::DecodeError>)
    ensures
        r is Ok <==> base64_decoding(true, false, text@) is Some,
        r matches Ok(data) ==> base64_decoding(true, false, text@) == Some(data@),
{
    ::base64::Engine::decode(&::base64::prelude::BASE64_URL_SAFE_NO_PAD, text)
}

/// Calls `str::trim`. Trusted: the result is the named text.
#[verifier::external_body]
fn trim(text: &str) -> (r: &str)
    ensures
        r@ == trimmed(text@),
{
    text.trim()
}

/// Whether `format` writes in the URL-safe alphabet.
pub open spec fn is_url_safe(format: Base64Format) -> bool {
    format == Base64Format::UrlSafe
}

/// The padded base64 text of `content` in the alphabet of `format`.
pub fn base64_encode(content: &[u8], format: Base64Format) -> (text: String)
    requires
        encoded_fits(content@.len()),
    ensures
        text@ == base64_encoding(is_url_safe(format), true, content@),
{
    match format {
        Base64Format::Stand => encode_standard(content),
        Base64Format::UrlSafe => encode_url_safe(content),
    }
}

/// What is made of the bytes a base64 text decodes to: they must exist and
/// be UTF-8 text.
pub open spec fn decoded_text(data: Option<Seq<u8>>) -> Result<Seq<char>, Base64Error> {
    match data {
        None => Err(Base64Error::InvalidBase64),
        Some(bytes) => if valid_utf8(bytes) {
            Ok(decode_utf8(bytes))
        } else {
            Err(Base64Error::NotText)
        },
    }
}

/// What `base64_decode` returns: the white space at the ends of the text is
/// dropped, the rest is read as padded base64 in the alphabet of `format`,
/// and the bytes are read as UTF-8 text.
pub open spec fn base64_decode_spec(text: Seq<char>, format: Base64Format) -> Result<
    Seq<char>,
    Base64Error,
> {
    decoded_text(base64_decoding(is_url_safe(format), true, encode_utf8(trimmed(text))))
}

/// The view of a result that carries text.
pub open spec fn text_result(r: Result<String, Base64Error>) -> Result<Seq<char>, Base64Error> {
    match r {
        Ok(text) => Ok(text@),
        Err(e) => Err(e),
    }
}

/// Reads decoded bytes as text; `None` stands for a text that did not
/// decode.
pub fn text_of_decoded(data: Option<Vec<u8>>) -> (r: Result<String, Base64Error>)
    ensures
        text_result(r) == decoded_text(
            match data {
                Some(bytes) => Some(bytes@),
                None => None,
            },
        ),
{
    match data {
        None => Err(Base64Error::InvalidBase64),
        Some(bytes) => match string_from_utf8(bytes) {
            Ok(text) => Ok(text),
            Err(_) => Err(Base64Error::NotText),
        },
    }
}

/// The text that the padded base64 `text` stands for in the alphabet of
/// `format`.
pub fn base64_decode(text: &str, format: Base64Format) -> (r: Result<String, Base64Error>)
    ensures
        text_result(r) == base64_decode_spec(text@, format),
{
    let text = trim(text);
    let decoded = match format {
        Base64Format::Stand => decode_standard(text.as_bytes()),
        Base64Format::UrlSafe => decode_url_safe(text.as_bytes()),
    };
    match decoded {
        Ok(bytes) => text_of_decoded(Some(bytes)),
        Err(_) => text_of_decoded(None),
    }
}

} // verus!
