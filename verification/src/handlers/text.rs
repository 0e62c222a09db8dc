//! The `text` command: changes of letter case.

use vstd::prelude::*;
use capitalize::Capitalize;
use crate::cli::TextMethod;
use crate::handlers::{handled, CommandHandlerError, HandlerFailure};

verus! {

/// What `str::to_uppercase` returns for a text.
pub uninterp spec fn upper_text(text: Seq<char>) -> Seq<char>;

/// What `str::to_lowercase` returns for a text.
pub uninterp spec fn lower_text(text: Seq<char>) -> Seq<char>;

/// What `Capitalize::capitalize` returns for a text.
pub uninterp spec fn title_text(text: Seq<char>) -> Seq<char>;

/// What `stringcase::camel_case` returns for a text.
pub uninterp spec fn camel_text(text: Seq<char>) -> Seq<char>;

/// What `stringcase::pascal_case` returns for a text.
pub uninterp spec fn pascal_text(text: Seq<char>) -> Seq<char>;

/// What `stringcase::snake_case` returns for a text.
pub uninterp spec fn snake_text(text: Seq<char>) -> Seq<char>;

/// What `stringcase::kebab_case` returns for a text.
pub uninterp spec fn kebab_text(text: Seq<char>) -> Seq<char>;

/// `str::to_uppercase`.
#[verifier::external_body]
fn to_upper(text: &str) -> (changed: String)
    ensures
        changed@ == upper_text(text@),
{
    text.to_uppercase()
}

/// `str::to_lowercase`.
#[verifier::external_body]
fn to_lower(text: &str) -> (changed: String)
    ensures
        changed@ == lower_text(text@),
{
    text.to_lowercase()
}

/// `Capitalize::capitalize`.
#[verifier::external_body]
fn to_title(text: &str) -> (changed: String)
    ensures
        changed@ == title_text(text@),
{
    text.capitalize()
}

/// `stringcase::camel_case`.
#[verifier::external_body]
fn to_camel(text: &str) -> (changed: String)
    ensures
        changed@ == camel_text(text@),
{
    stringcase::camel_case(text)
}

/// `stringcase::pascal_case`.
#[verifier::external_body]
fn to_pascal(text: &str) -> (changed: String)
    ensures
        changed@ == pascal_text(text@),
{
    stringcase::pascal_case(text)
}

/// `stringcase::snake_case`.
#[verifier::external_body]
fn to_snake(text: &str) -> (changed: String)
    ensures
        changed@ == snake_text(text@),
{
    stringcase::snake_case(text)
}

/// `stringcase::kebab_case`.
#[verifier::external_body]
fn to_kebab(text: &str) -> (changed: String)
    ensures
        changed@ == kebab_text(text@),
{
    stringcase::kebab_case(text)
}

/// What a request for a change of case returns.
pub open spec fn recased(method: &TextMethod) -> Seq<char> {
    match method {
        TextMethod::Upper { options } => upper_text(options.text@),
        TextMethod::Lower { options } => lower_text(options.text@),
        TextMethod::Title { options } => title_text(options.text@),
        TextMethod::Camel { options } => camel_text(options.text@),
        TextMethod::Pascal { options } => pascal_text(options.text@),
        TextMethod::Snake { options } => snake_text(options.text@),
        TextMethod::Kebab { options } => kebab_text(options.text@),
    }
}

pub struct TextHandler {}

impl TextHandler {
    /// Changes the case of the request's text. The change never fails.
    pub fn handle_method(method: &TextMethod) -> (r: Result<String, CommandHandlerError>)
        ensures
            handled(r) == Ok::<Seq<char>, HandlerFailure>(recased(method)),
    {
        match method {
            TextMethod::Upper { options } => Ok(to_upper(options.text.as_str())),
            TextMethod::Lower { options } => Ok(to_lower(options.text.as_str())),
            TextMethod::Title { options } => Ok(to_title(options.text.as_str())),
            TextMethod::Camel { options } => Ok(to_camel(options.text.as_str())),
            TextMethod::Pascal { options } => Ok(to_pascal(options.text.as_str())),
            TextMethod::Snake { options } => Ok(to_snake(options.text.as_str())),
            TextMethod::Kebab { options } => Ok(to_kebab(options.text.as_str())),
        }
    }
}

} // verus!
