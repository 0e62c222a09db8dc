//! The `decode` command: Base64, URL and hexadecimal decoding.

use vstd::prelude::*;
use base64::Engine;
use crate::cli::{Base64Options, DecodeMethod, HexOptions, URLOptions};
use crate::handlers::{handled, CommandHandlerError, HandlerFailure};
use crate::text::{bytes_outcome, chain, text_outcome};

verus! {

/// What `base64`'s general-purpose engine decodes a text to, with the
/// standard or the URL-safe alphabet, with padding required or refused:
/// the bytes, or the text of the decoding error.
pub uninterp spec fn base64_bytes(text: Seq<char>, url_safe: bool, no_padding: bool) -> Result<
    Seq<u8>,
    Seq<char>,
>;

/// What `urlencoding::decode` returns for a text: the decoded text, or the
/// text of the error where the decoded bytes are not UTF-8.
pub uninterp spec fn url_plain(text: Seq<char>) -> Result<Seq<char>, Seq<char>>;

/// What `hex::decode` returns for a text: the bytes, or the text of the
/// decoding error.
pub uninterp spec fn hex_bytes(text: Seq<char>) -> Result<Seq<u8>, Seq<char>>;

/// What `String::from_utf8_lossy` makes of bytes: their text, with the
/// replacement character in place of whatever is not UTF-8.
pub uninterp spec fn lossy_text(bytes: Seq<u8>) -> Seq<char>;

/// `Engine::decode` on the `GeneralPurpose` engine made of the alphabet
/// and the padding that the two flags name: `URL_SAFE` or `STANDARD`,
/// `NO_PAD` or `PAD`.
#[verifier::external_body]
pub(crate) fn base64_decode(text: &str, url_safe: bool, no_padding: bool) -> (r: Result<
    Vec<u8>,
    String,
>)
    ensures
        bytes_outcome(r) == base64_bytes(text@, url_safe, no_padding),
{
    let alphabet = if url_safe { base64::alphabet::URL_SAFE } else { base64::alphabet::STANDARD };
    let padding = if no_padding {
        base64::engine::general_purpose::NO_PAD
    } else {
        base64::engine::general_purpose::PAD
    };
    base64::engine::GeneralPurpose::new(&alphabet, padding).decode(text).map_err(|e| e.to_string())
}

/// `urlencoding::decode`.
#[verifier::external_body]
pub(crate) fn url_decode(text: &str) -> (r: Result<String, String>)
    ensures
        text_outcome(r) == url_plain(text@),
{
    match urlencoding::decode(text) {
        Ok(plain) => Ok(plain.to_string()),
        Err(e) => Err(e.to_string()),
    }
}

/// `hex::decode`.
#[verifier::external_body]
pub(crate) fn hex_decode(text: &str) -> (r: Result<Vec<u8>, String>)
    ensures
        bytes_outcome(r) == hex_bytes(text@),
{
    hex::decode(text).map_err(|e| e.to_string())
}

/// `String::from_utf8_lossy`.
#[verifier::external_body]
pub(crate) fn utf8_lossy(bytes: &Vec<u8>) -> (text: String)
    ensures
        text@ == lossy_text(bytes@),
{
    String::from_utf8_lossy(bytes).to_string()
}

/// Decoded bytes as text, or the decoder's account after `complaint`.
pub open spec fn bytes_report(r: Result<Seq<u8>, Seq<char>>, complaint: Seq<char>) -> Result<
    Seq<char>,
    HandlerFailure,
> {
    match r {
        Ok(bytes) => Ok(lossy_text(bytes)),
        Err(why) => Err(HandlerFailure::RuntimeError(Some(complaint + why))),
    }
}

/// Decoded text, or the decoder's account after `complaint`.
pub open spec fn text_report(r: Result<Seq<char>, Seq<char>>, complaint: Seq<char>) -> Result<
    Seq<char>,
    HandlerFailure,
> {
    match r {
        Ok(text) => Ok(text),
        Err(why) => Err(HandlerFailure::RuntimeError(Some(complaint + why))),
    }
}

/// What a decoding request returns.
pub open spec fn decoded(method: &DecodeMethod) -> Result<Seq<char>, HandlerFailure> {
    match method {
        DecodeMethod::Base64 { options } => bytes_report(
            base64_bytes(options.text@, options.url_safe, options.no_padding),
            "Failed to decode BASE64 string! "@,
        ),
        DecodeMethod::URL { options } => text_report(
            url_plain(options.text@),
            "Failed to decode url string! "@,
        ),
        DecodeMethod::Hex { options } => bytes_report(
            hex_bytes(options.text@),
            "Failed to decode hex string! "@,
        ),
    }
}

/// Turns a decoder's bytes into text and its failure into a runtime error.
pub fn report_bytes(r: Result<Vec<u8>, String>, complaint: &str) -> (out: Result<
    String,
    CommandHandlerError,
>)
    ensures
        handled(out) == bytes_report(bytes_outcome(r), complaint@),
{
    match r {
        Ok(bytes) => Ok(utf8_lossy(&bytes)),
        Err(why) => Err(CommandHandlerError::runtime(chain(complaint, why.as_str()))),
    }
}

/// Hands on a decoder's text and turns its failure into a runtime error.
pub fn report_text(r: Result<String, String>, complaint: &str) -> (out: Result<
    String,
    CommandHandlerError,
>)
    ensures
        handled(out) == text_report(text_outcome(r), complaint@),
{
    match r {
        Ok(text) => Ok(text),
        Err(why) => Err(CommandHandlerError::runtime(chain(complaint, why.as_str()))),
    }
}

pub struct DecodeHandler {}

impl DecodeHandler {
    /// Decodes the text of the request; what does not decode is a runtime
    /// error with the decoder's account.
    pub fn handle_method(method: &DecodeMethod) -> (r: Result<String, CommandHandlerError>)
        ensures
            handled(r) == decoded(method),
    {
        match method {
            DecodeMethod::Base64 { options } => Self::decode_base64(options),
            DecodeMethod::URL { options } => Self::decode_url(options),
            DecodeMethod::Hex { options } => Self::decode_hex(options),
        }
    }

    pub fn decode_base64(options: &Base64Options) -> (r: Result<String, CommandHandlerError>)
        ensures
            handled(r) == bytes_report(
                base64_bytes(options.text@, options.url_safe, options.no_padding),
                "Failed to decode BASE64 string! "@,
            ),
    {
        report_bytes(
            base64_decode(options.text.as_str(), options.url_safe, options.no_padding),
            "Failed to decode BASE64 string! ",
        )
    }

    pub fn decode_url(options: &URLOptions) -> (r: Result<String, CommandHandlerError>)
        ensures
            handled(r) == text_report(url_plain(options.text@), "Failed to decode url string! "@),
    {
        report_text(url_decode(options.text.as_str()), "Failed to decode url string! ")
    }

    pub fn decode_hex(options: &HexOptions) -> (r: Result<String, CommandHandlerError>)
        ensures
            handled(r) == bytes_report(hex_bytes(options.text@), "Failed to decode hex string! "@),
    {
        report_bytes(hex_decode(options.text.as_str()), "Failed to decode hex string! ")
    }
}

} // verus!
