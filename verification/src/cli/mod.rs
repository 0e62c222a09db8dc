//! The commands of the tool and their options, as plain values.

pub mod encode_decode;
pub mod hash;
pub mod json;
pub mod jwt;
pub mod lorem;
pub mod regex;
pub mod text;
pub mod time;
pub mod uuid;

pub use crate::cli::encode_decode::{
    Base64Options, DecodeMethod, EncodeMethod, HexOptions, URLOptions,
};
pub use crate::cli::hash::{
    HashAlgorithm, HashFileOptions, HashMethod, HashTextOptions, HashVerifyOptions,
};
pub use crate::cli::json::{FormatOptions, JSONMethod, MinifyOptions, ValidateOptions};
pub use crate::cli::jwt::{JWTAlgorithm, JWTDecodeOptions, JWTMethod, JWTVerifyOptions};
pub use crate::cli::lorem::{LoremMethod, LoremOptions};
pub use crate::cli::regex::{
    RegexMatchOptions, RegexMethod, RegexReplaceOptions, RegexTestOptions,
};
pub use crate::cli::text::{TextMethod, TextOptions};
pub use crate::cli::time::{
    TimeAgoOptions, TimeFormatOptions, TimeFromUnixOptions, TimeMethod, TimeNowOptions,
    TimeToUnixOptions,
};
pub use crate::cli::uuid::{UuidMethod, UuidOptions};

use vstd::prelude::*;

verus! {

/// One command of the tool with the method chosen under it.
#[derive(Debug, Clone)]
pub enum Command {
    /// Format, validate, and manipulate JSON data.
    Json { method: JSONMethod },
    /// Encode data to various formats.
    Encode { method: EncodeMethod },
    /// Decode data from various formats.
    Decode { method: DecodeMethod },
    /// Generate and validate cryptographic hashes.
    Hash { method: HashMethod },
    /// Generate UUIDs.
    Uuid { method: UuidMethod },
    /// Convert and format dates and timestamps.
    Time { method: TimeMethod },
    /// Text manipulation utilities.
    Text { method: TextMethod },
    /// Decode and verify JSON web tokens.
    Jwt { method: JWTMethod },
    /// Test, match and replace with regular expressions.
    Regex { method: RegexMethod },
    /// Generate placeholder text.
    Lorem { method: LoremMethod },
}

/// A whole invocation: the command, and where to save the result if not
/// on the screen.
#[derive(Debug, Clone)]
pub struct Cli {
    pub command: Command,
    /// Path to the file where to save the results.
    pub output: Option<String>,
}

} // verus!
