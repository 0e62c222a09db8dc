use vstd::prelude::*;

verus! {

#[derive(Debug, Clone)]
pub enum EncodeMethod {
    Base64 { options: Base64Options },
    URL { options: URLOptions },
    Hex { options: HexOptions },
}

#[derive(Debug, Clone)]
pub enum DecodeMethod {
    Base64 { options: Base64Options },
    URL { options: URLOptions },
    Hex { options: HexOptions },
}

#[derive(Debug, Clone)]
pub struct Base64Options {
    /// The text to be encoded or decoded.
    pub text: String,
    /// Whether the URL-safe alphabet is used.
    pub url_safe: bool,
    /// Whether the padding at the end is left out.
    pub no_padding: bool,
}

#[derive(Debug, Clone)]
pub struct URLOptions {
    /// The text to be encoded or decoded.
    pub text: String,
}

#[derive(Debug, Clone)]
pub struct HexOptions {
    /// The text to be encoded or decoded.
    pub text: String,
}

} // verus!
