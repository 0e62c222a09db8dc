//! The `encode` command: Base64, URL and hexadecimal encoding.

use vstd::prelude::*;
use vstd::utf8::encode_utf8;
use base64::Engine;
use crate::cli::{Base64Options, EncodeMethod, HexOptions, URLOptions};
use crate::handlers::{handled, CommandHandlerError, HandlerFailure};
use crate::text::digit_char;

verus! {

/// What `base64`'s general-purpose engine encodes a text to, with the
/// standard or the URL-safe alphabet, with or without padding.
pub uninterp spec fn base64_text(text: Seq<char>, url_safe: bool, no_padding: bool) -> Seq<char>;

/// What `urlencoding::encode` returns for a text.
pub uninterp spec fn url_text(text: Seq<char>) -> Seq<char>;

/// The lowercase numeral of a hexadecimal digit.
pub open spec fn hex_digit(d: int) -> char {
    if d < 10 {
        digit_char(d)
    } else if d == 10 {
        'a'
    } else if d == 11 {
        'b'
    } else if d == 12 {
        'c'
    } else if d == 13 {
        'd'
    } else if d == 14 {
        'e'
    } else {
        'f'
    }
}

/// Two lowercase hexadecimal digits for each byte, the high half first.
pub open spec fn hex_text(data: Seq<u8>) -> Seq<char>
    decreases data.len(),
{
    if data.len() == 0 {
        Seq::empty()
    } else {
        hex_text(data.drop_last()).push(hex_digit(data.last() as int / 16)).push(
            hex_digit(data.last() as int % 16),
        )
    }
}

/// `Engine::encode` on the `GeneralPurpose` engine made of the alphabet
/// and the padding that the two flags name: `URL_SAFE` or `STANDARD`,
/// `NO_PAD` or `PAD`.
#[verifier::external_body]
pub(crate) fn base64_encode(text: &str, url_safe: bool, no_padding: bool) -> (encoded: String)
    ensures
        encoded@ == base64_text(text@, url_safe, no_padding),
{
    let alphabet = if url_safe { base64::alphabet::URL_SAFE } else { base64::alphabet::STANDARD };
    let padding = if no_padding {
        base64::engine::general_purpose::NO_PAD
    } else {
        base64::engine::general_purpose::PAD
    };
    base64::engine::GeneralPurpose::new(&alphabet, padding).encode(text)
}

/// `urlencoding::encode`.
#[verifier::external_body]
pub(crate) fn url_encode(text: &str) -> (encoded: String)
    ensures
        encoded@ == url_text(text@),
{
    urlencoding::encode(text).to_string()
}

/// `hex::encode`: each byte as two lowercase hexadecimal digits.
#[verifier::external_body]
pub(crate) fn hex_encode(data: &[u8]) -> (encoded: String)
    ensures
        encoded@ == hex_text(data@),
{
    hex::encode(data)
}

/// What an encoding request returns.
pub open spec fn encoded(method: &EncodeMethod) -> Seq<char> {
    match method {
        EncodeMethod::Base64 { options } => base64_text(
            options.text@,
            options.url_safe,
            options.no_padding,
        ),
        EncodeMethod::URL { options } => url_text(options.text@),
        EncodeMethod::Hex { options } => hex_text(encode_utf8(options.text@)),
    }
}

pub struct EncodeHandler {}

impl EncodeHandler {
    /// Encodes the text of the request. Encoding never fails.
    pub fn handle_method(method: &EncodeMethod) -> (r: Result<String, CommandHandlerError>)
        ensures
            handled(r) == Ok::<Seq<char>, HandlerFailure>(encoded(method)),
    {
        match method {
            EncodeMethod::Base64 { options } => Self::encode_base64(options),
            EncodeMethod::URL { options } => Self::encode_url(options),
            EncodeMethod::Hex { options } => Self::encode_hex(options),
        }
    }

    pub fn encode_base64(options: &Base64Options) -> (r: Result<String, CommandHandlerError>)
        ensures
            handled(r) == Ok::<Seq<char>, HandlerFailure>(
                base64_text(options.text@, options.url_safe, options.no_padding),
            ),
    {
        Ok(base64_encode(options.text.as_str(), options.url_safe, options.no_padding))
    }

    pub fn encode_url(options: &URLOptions) -> (r: Result<String, CommandHandlerError>)
        ensures
            handled(r) == Ok::<Seq<char>, HandlerFailure>(url_text(options.text@)),
    {
        Ok(url_encode(options.text.as_str()))
    }

    pub fn encode_hex(options: &HexOptions) -> (r: Result<String, CommandHandlerError>)
        ensures
            handled(r) == Ok::<Seq<char>, HandlerFailure>(
                hex_text(encode_utf8(options.text@)),
            ),
    {
        Ok(hex_encode(options.text.as_str().as_bytes()))
    }
}

} // verus!
