use vstd::prelude::*;

verus! {

#[derive(Debug, Clone)]
pub enum JWTMethod {
    /// Decode a token without checking its signature.
    Decode { options: JWTDecodeOptions },
    /// Verify a token against a secret.
    Verify { options: JWTVerifyOptions },
}

#[derive(Debug, Clone)]
pub struct JWTDecodeOptions {
    /// The token.
    pub token: String,
}

#[derive(Debug, Clone)]
pub struct JWTVerifyOptions {
    /// The token.
    pub token: String,
    /// The secret the token was signed with.
    pub secret: String,
    /// The algorithm the token must be signed with.
    pub algorithm: JWTAlgorithm,
    /// The claims that the token must carry (`exp`, `sub`, ...).
    pub required: Option<Vec<String>>,
}

#[derive(Debug, Clone, Copy, PartialEq, Eq, Structural)]
pub enum JWTAlgorithm {
    HS256,
    HS384,
    HS512,
    RS256,
    RS384,
    RS512,
    ES256,
    ES384,
    PS256,
    PS384,
    PS512,
    EdDSA,
}

} // verus!
