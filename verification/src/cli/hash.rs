use vstd::prelude::*;

verus! {

#[derive(Debug, Clone)]
pub enum HashMethod {
    Md5 { options: HashTextOptions },
    Sha256 { options: HashTextOptions },
    Sha512 { options: HashTextOptions },
    File { options: HashFileOptions },
    Verify { options: HashVerifyOptions },
}

#[derive(Debug, Clone)]
pub struct HashTextOptions {
    /// Text to hash.
    pub text: String,
}

#[derive(Debug, Clone)]
pub struct HashFileOptions {
    /// Path to the file.
    pub path: String,
    /// Hash algorithm.
    pub algorithm: HashAlgorithm,
}

#[derive(Debug, Clone)]
pub struct HashVerifyOptions {
    /// Text to hash.
    pub text: String,
    /// Expected hash.
    pub expected: String,
    /// Hash algorithm.
    pub algorithm: HashAlgorithm,
}

#[derive(Debug, Clone, Copy, PartialEq, Eq, Structural)]
pub enum HashAlgorithm {
    Md5,
    Sha256,
    Sha512,
}

} // verus!
