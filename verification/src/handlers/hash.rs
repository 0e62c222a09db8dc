//! The `hash` command: digests of a text or of a file's text, and the
//! comparison of a digest with an expected one.

use vstd::prelude::*;
use vstd::utf8::encode_utf8;
use md5::Digest;
use crate::cli::{HashAlgorithm, HashFileOptions, HashMethod, HashVerifyOptions};
use crate::handlers::encode::{hex_encode, hex_text};
use crate::handlers::{handled, CommandHandlerError, FileContent, FileInput, HandlerFailure};
use crate::text::{chain, strings_view};

verus! {

/// The MD5 digest of a sequence of bytes, as `md5::Md5` computes it.
pub uninterp spec fn md5_digest(data: Seq<u8>) -> Seq<u8>;

/// The SHA-256 digest of a sequence of bytes, as `sha2::Sha256` computes it.
pub uninterp spec fn sha256_digest(data: Seq<u8>) -> Seq<u8>;

/// The SHA-512 digest of a sequence of bytes, as `sha2::Sha512` computes it.
pub uninterp spec fn sha512_digest(data: Seq<u8>) -> Seq<u8>;

/// `Digest::digest` of `md5::Md5`.
#[verifier::external_body]
fn md5_of(data: &[u8]) -> (digest: Vec<u8>)
    ensures
        digest@ == md5_digest(data@),
{
    md5::Md5::digest(data).to_vec()
}

/// `Digest::digest` of `sha2::Sha256`.
#[verifier::external_body]
fn sha256_of(data: &[u8]) -> (digest: Vec<u8>)
    ensures
        digest@ == sha256_digest(data@),
{
    sha2::Sha256::digest(data).to_vec()
}

/// `Digest::digest` of `sha2::Sha512`.
#[verifier::external_body]
fn sha512_of(data: &[u8]) -> (digest: Vec<u8>)
    ensures
        digest@ == sha512_digest(data@),
{
    sha2::Sha512::digest(data).to_vec()
}

/// The digest of a text's UTF-8 bytes in lowercase hexadecimal.
pub open spec fn digest_text(algorithm: HashAlgorithm, text: Seq<char>) -> Seq<char> {
    match algorithm {
        HashAlgorithm::Md5 => hex_text(md5_digest(encode_utf8(text))),
        HashAlgorithm::Sha256 => hex_text(sha256_digest(encode_utf8(text))),
        HashAlgorithm::Sha512 => hex_text(sha512_digest(encode_utf8(text))),
    }
}

/// The digest of a file's text, or why there is none.
pub open spec fn file_digest(algorithm: HashAlgorithm, input: FileContent) -> Result<
    Seq<char>,
    HandlerFailure,
> {
    match input {
        FileContent::Text(text) => Ok(digest_text(algorithm, text)),
        FileContent::Unreadable(why) => Err(
            HandlerFailure::RuntimeError(Some("Failed to read file contents! "@ + why)),
        ),
        FileContent::Absent => Err(HandlerFailure::MissingArguments(seq!["path"@])),
    }
}

/// Whether the text's digest is the expected one, as a yes or a no.
pub open spec fn verdict(algorithm: HashAlgorithm, text: Seq<char>, expected: Seq<char>) -> Result<
    Seq<char>,
    HandlerFailure,
> {
    if digest_text(algorithm, text) == expected {
        Ok("The provided text matches the expected hash!"@)
    } else {
        Err(
            HandlerFailure::NegativeResult(
                "The provided string doesn't match the expected one!"@,
            ),
        )
    }
}

/// What a hashing request returns for a given reading of the file.
pub open spec fn hashed(method: &HashMethod, input: FileContent) -> Result<
    Seq<char>,
    HandlerFailure,
> {
    match method {
        HashMethod::Md5 { options } => Ok(digest_text(HashAlgorithm::Md5, options.text@)),
        HashMethod::Sha256 { options } => Ok(digest_text(HashAlgorithm::Sha256, options.text@)),
        HashMethod::Sha512 { options } => Ok(digest_text(HashAlgorithm::Sha512, options.text@)),
        HashMethod::File { options } => file_digest(options.algorithm, input),
        HashMethod::Verify { options } => verdict(
            options.algorithm,
            options.text@,
            options.expected@,
        ),
    }
}

pub struct HashHandler {}

impl HashHandler {
    /// Carries out a hashing request. `input` is what reading the file
    /// gave, for the request that names one.
    pub fn handle_method(method: &HashMethod, input: &FileInput) -> (r: Result<
        String,
        CommandHandlerError,
    >)
        ensures
            handled(r) == hashed(method, input@),
    {
        match method {
            HashMethod::Md5 { options } => Ok(Self::hash_md5(options.text.as_str())),
            HashMethod::Sha256 { options } => Ok(Self::hash_sha256(options.text.as_str())),
            HashMethod::Sha512 { options } => Ok(Self::hash_sha512(options.text.as_str())),
            HashMethod::File { options } => Self::hash_file(options, input),
            HashMethod::Verify { options } => Self::verify_hash(options),
        }
    }

    pub fn hash_md5(text: &str) -> (digest: String)
        ensures
            digest@ == digest_text(HashAlgorithm::Md5, text@),
    {
        hex_encode(md5_of(text.as_bytes()).as_slice())
    }

    pub fn hash_sha256(text: &str) -> (digest: String)
        ensures
            digest@ == digest_text(HashAlgorithm::Sha256, text@),
    {
        hex_encode(sha256_of(text.as_bytes()).as_slice())
    }

    pub fn hash_sha512(text: &str) -> (digest: String)
        ensures
            digest@ == digest_text(HashAlgorithm::Sha512, text@),
    {
        hex_encode(sha512_of(text.as_bytes()).as_slice())
    }

    /// The digest of `text` by the chosen algorithm.
    pub fn hash_text(algorithm: HashAlgorithm, text: &str) -> (digest: String)
        ensures
            digest@ == digest_text(algorithm, text@),
    {
        match algorithm {
            HashAlgorithm::Md5 => Self::hash_md5(text),
            HashAlgorithm::Sha256 => Self::hash_sha256(text),
            HashAlgorithm::Sha512 => Self::hash_sha512(text),
        }
    }

    /// The digest of the file's text. A file that could not be read is a
    /// runtime error; a file that nobody read is a missing argument.
    pub fn hash_file(options: &HashFileOptions, input: &FileInput) -> (r: Result<
        String,
        CommandHandlerError,
    >)
        ensures
            handled(r) == file_digest(options.algorithm, input@),
    {
        match input {
            FileInput::Text(text) => Ok(Self::hash_text(options.algorithm, text.as_str())),
            FileInput::Unreadable(why) => Err(
                CommandHandlerError::runtime(
                    chain("Failed to read file contents! ", why.as_str()),
                ),
            ),
            FileInput::Absent => {
                let mut names: Vec<String> = Vec::new();
                names.push(String::from_str("path"));
                proof {
                    assert(strings_view(names@) =~= seq!["path"@]);
                }
                Err(CommandHandlerError::MissingArguments(names))
            },
        }
    }

    /// Compares the digest of the text with the expected one.
    pub fn verify_hash(options: &HashVerifyOptions) -> (r: Result<String, CommandHandlerError>)
        ensures
            handled(r) == verdict(options.algorithm, options.text@, options.expected@),
    {
        let new_hash = Self::hash_text(options.algorithm, options.text.as_str());
        if new_hash == options.expected {
            Ok(String::from_str("The provided text matches the expected hash!"))
        } else {
            Err(
                CommandHandlerError::NegativeResult(
                    String::from_str("The provided string doesn't match the expected one!"),
                ),
            )
        }
    }
}

} // verus!
