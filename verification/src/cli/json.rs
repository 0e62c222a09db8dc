use vstd::prelude::*;

verus! {

#[derive(Debug, Clone)]
pub struct FormatOptions {
    /// Path to a file that holds the JSON.
    pub file: Option<String>,
    /// The JSON itself.
    pub content: Option<String>,
}

#[derive(Debug, Clone)]
pub struct MinifyOptions {
    /// Path to a file that holds the JSON.
    pub file: String,
}

#[derive(Debug, Clone)]
pub struct ValidateOptions {
    /// Path to a file that holds the JSON.
    pub file: String,
}

#[derive(Debug, Clone)]
pub enum JSONMethod {
    Format { options: FormatOptions },
    Minify { options: MinifyOptions },
    Validate { options: ValidateOptions },
}

} // verus!
