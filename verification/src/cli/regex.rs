use vstd::prelude::*;

verus! {

#[derive(Debug, Clone)]
pub enum RegexMethod {
    /// Test whether a pattern matches.
    Test { options: RegexTestOptions },
    /// List the matches of a pattern.
    Match { options: RegexMatchOptions },
    /// Replace the matches of a pattern.
    Replace { options: RegexReplaceOptions },
}

#[derive(Debug, Clone)]
pub struct RegexTestOptions {
    /// The pattern.
    pub pattern: String,
    pub text: String,
}

#[derive(Debug, Clone)]
pub struct RegexMatchOptions {
    /// The pattern.
    pub pattern: String,
    pub text: String,
}

#[derive(Debug, Clone)]
pub struct RegexReplaceOptions {
    /// The pattern.
    pub pattern: String,
    /// The text to put in the place of the matches.
    pub replacement: String,
    pub text: String,
}

} // verus!
