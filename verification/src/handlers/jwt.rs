//! The `jwt` command: showing what a JSON web token holds, and checking a
//! token against a secret.
//!
//! Decoding and checking are `jsonwebtoken`'s; the header and the claims
//! are printed by `serde_json`.

use vstd::prelude::*;
use crate::cli::{JWTAlgorithm, JWTDecodeOptions, JWTMethod, JWTVerifyOptions};
use crate::handlers::{handled, CommandHandlerError, HandlerFailure};
use crate::text::{chain, text_outcome};

verus! {

/// The signing algorithms of `jsonwebtoken`.
#[verifier::external_type_specification]
#[verifier::external_body]
pub struct ExAlgorithm(jsonwebtoken::Algorithm);

/// The header and the claims of a token, each as indented JSON or as the
/// message of the error that printing it gave.
pub struct TokenParts {
    pub header: Result<String, String>,
    pub claims: Result<String, String>,
}

/// The mathematical content of [`TokenParts`].
pub ghost struct TokenPartsView {
    pub header: Result<Seq<char>, Seq<char>>,
    pub claims: Result<Seq<char>, Seq<char>>,
}

impl View for TokenParts {
    type V = TokenPartsView;

    open spec fn view(&self) -> TokenPartsView {
        TokenPartsView { header: text_outcome(self.header), claims: text_outcome(self.claims) }
    }
}

/// The content of a decoding's outcome.
pub open spec fn parts_outcome(r: Result<TokenParts, String>) -> Result<
    TokenPartsView,
    Seq<char>,
> {
    match r {
        Ok(parts) => Ok(parts@),
        Err(why) => Err(why@),
    }
}

/// What `jsonwebtoken::dangerous::insecure_decode` finds in a token, with
/// header and claims printed by `serde_json::to_string_pretty`; or the
/// message of the decoding error.
pub uninterp spec fn token_parts(token: Seq<char>) -> Result<TokenPartsView, Seq<char>>;

/// `jsonwebtoken::dangerous::insecure_decode` with claims of any JSON
/// shape, header and claims then printed by `serde_json::to_string_pretty`.
#[verifier::external_body]
fn decode_unchecked(token: &str) -> (r: Result<TokenParts, String>)
    ensures
        parts_outcome(r) == token_parts(token@),
{
    match jsonwebtoken::dangerous::insecure_decode::<serde_json::Value>(token) {
        Ok(data) => Ok(TokenParts {
            header: serde_json::to_string_pretty(&data.header).map_err(|e| e.to_string()),
            claims: serde_json::to_string_pretty(&data.claims).map_err(|e| e.to_string()),
        }),
        Err(e) => Err(e.to_string()),
    }
}

/// The algorithm of `jsonwebtoken` that goes by the same name.
#[verifier::external_body]
fn algorithm_of(algorithm: JWTAlgorithm) -> jsonwebtoken::Algorithm {
    match algorithm {
        JWTAlgorithm::HS256 => jsonwebtoken::Algorithm::HS256,
        JWTAlgorithm::HS384 => jsonwebtoken::Algorithm::HS384,
        JWTAlgorithm::HS512 => jsonwebtoken::Algorithm::HS512,
        JWTAlgorithm::RS256 => jsonwebtoken::Algorithm::RS256,
        JWTAlgorithm::RS384 => jsonwebtoken::Algorithm::RS384,
        JWTAlgorithm::RS512 => jsonwebtoken::Algorithm::RS512,
        JWTAlgorithm::ES256 => jsonwebtoken::Algorithm::ES256,
        JWTAlgorithm::ES384 => jsonwebtoken::Algorithm::ES384,
        JWTAlgorithm::PS256 => jsonwebtoken::Algorithm::PS256,
        JWTAlgorithm::PS384 => jsonwebtoken::Algorithm::PS384,
        JWTAlgorithm::PS512 => jsonwebtoken::Algorithm::PS512,
        JWTAlgorithm::EdDSA => jsonwebtoken::Algorithm::EdDSA,
    }
}

/// `jsonwebtoken::decode` with a key made of the secret and a validation
/// for one algorithm that requires the named claims. Whether a token
/// passes depends on the clock where the token carries an expiry, so
/// nothing is said of the outcome; an error comes back as its message.
#[verifier::external_body]
fn check_token(
    token: &str,
    secret: &str,
    algorithm: jsonwebtoken::Algorithm,
    required: &Vec<String>,
) -> (r: Result<(), String>) {
    let key = jsonwebtoken::DecodingKey::from_secret(secret.as_bytes());
    let mut validation = jsonwebtoken::Validation::new(algorithm);
    validation.required_spec_claims = required.iter().cloned().collect();
    match jsonwebtoken::decode::<serde_json::Value>(token, &key, &validation) {
        Ok(_) => Ok(()),
        Err(e) => Err(e.to_string()),
    }
}

/// The display of a decoding's outcome: header and claims on lines of
/// their own, or what went wrong first.
pub open spec fn decoded_report(found: Result<TokenPartsView, Seq<char>>) -> Result<
    Seq<char>,
    HandlerFailure,
> {
    match found {
        Ok(parts) => match parts.header {
            Ok(header) => match parts.claims {
                Ok(claims) => Ok(header + "\n"@ + claims),
                Err(why) => Err(
                    HandlerFailure::RuntimeError(
                        Some("Failed to convert jwt claims to json! "@ + why),
                    ),
                ),
            },
            Err(why) => Err(
                HandlerFailure::RuntimeError(
                    Some("Failed to convert jwt header to json! "@ + why),
                ),
            ),
        },
        Err(why) => Err(HandlerFailure::RuntimeError(Some("Failed to decode JWT! "@ + why))),
    }
}

/// The display of a check's outcome.
pub open spec fn checked_report(outcome: Result<(), Seq<char>>) -> Result<
    Seq<char>,
    HandlerFailure,
> {
    match outcome {
        Ok(_) => Ok("The provided JWT Token is valid!"@),
        Err(why) => Err(HandlerFailure::RuntimeError(Some("The JWT Token is invalid! "@ + why))),
    }
}

/// The content of a check's outcome.
pub open spec fn check_outcome(r: Result<(), String>) -> Result<(), Seq<char>> {
    match r {
        Ok(_) => Ok(()),
        Err(why) => Err(why@),
    }
}

/// Whether `r` is what a request may return.
pub open spec fn settled(method: &JWTMethod, r: Result<Seq<char>, HandlerFailure>) -> bool {
    match method {
        JWTMethod::Decode { options } => r == decoded_report(token_parts(options.token@)),
        JWTMethod::Verify { options } => exists|outcome: Result<(), Seq<char>>|
            r == checked_report(outcome),
    }
}

pub struct JWTHandler {}

impl JWTHandler {
    /// Carries out a request. What a token holds is decided by the token;
    /// whether it passes the check is `jsonwebtoken`'s verdict of the
    /// moment.
    pub fn handle_method(method: &JWTMethod) -> (r: Result<String, CommandHandlerError>)
        ensures
            settled(method, handled(r)),
    {
        match method {
            JWTMethod::Decode { options } => Self::decode_jwt(options),
            JWTMethod::Verify { options } => Self::verify_jwt(options),
        }
    }

    /// Puts a decoding's outcome into words.
    pub fn report_decoded(found: Result<TokenParts, String>) -> (r: Result<
        String,
        CommandHandlerError,
    >)
        ensures
            handled(r) == decoded_report(parts_outcome(found)),
    {
        match found {
            Ok(parts) => match parts.header {
                Ok(header) => match parts.claims {
                    Ok(claims) => {
                        let mut text = header;
                        text.append("\n");
                        text.append(claims.as_str());
                        Ok(text)
                    },
                    Err(why) => Err(
                        CommandHandlerError::runtime(
                            chain("Failed to convert jwt claims to json! ", why.as_str()),
                        ),
                    ),
                },
                Err(why) => Err(
                    CommandHandlerError::runtime(
                        chain("Failed to convert jwt header to json! ", why.as_str()),
                    ),
                ),
            },
            Err(why) => Err(
                CommandHandlerError::runtime(chain("Failed to decode JWT! ", why.as_str())),
            ),
        }
    }

    /// Puts a check's outcome into words.
    pub fn report_checked(outcome: Result<(), String>) -> (r: Result<String, CommandHandlerError>)
        ensures
            handled(r) == checked_report(check_outcome(outcome)),
    {
        match outcome {
            Ok(_) => Ok(String::from_str("The provided JWT Token is valid!")),
            Err(why) => Err(
                CommandHandlerError::runtime(chain("The JWT Token is invalid! ", why.as_str())),
            ),
        }
    }

    /// Shows the header and the claims of a token without checking it.
    pub fn decode_jwt(options: &JWTDecodeOptions) -> (r: Result<String, CommandHandlerError>)
        ensures
            handled(r) == decoded_report(token_parts(options.token@)),
    {
        Self::report_decoded(decode_unchecked(options.token.as_str()))
    }

    /// Checks a token against the secret, for the chosen algorithm and
    /// with the claims that the request requires, none where it names none.
    pub fn verify_jwt(options: &JWTVerifyOptions) -> (r: Result<String, CommandHandlerError>)
        ensures
            exists|outcome: Result<(), Seq<char>>| handled(r) == checked_report(outcome),
    {
        let none: Vec<String> = Vec::new();
        let required = match &options.required {
            Some(names) => names,
            None => &none,
        };
        let outcome = check_token(
            options.token.as_str(),
            options.secret.as_str(),
            algorithm_of(options.algorithm),
            required,
        );
        let r = Self::report_checked(outcome);
        proof {
            assert(handled(r) == checked_report(check_outcome(outcome)));
        }
        r
    }
}

} // verus!
