//! The `uuid` command: fresh identifiers, numbered one to a line.

use vstd::prelude::*;
use crate::cli::{UuidMethod, UuidOptions};
use crate::handlers::{handled, CommandHandlerError, HandlerFailure};
use crate::text::strings_view;
use crate::utils::{numbered, push_numbered};

verus! {

/// The length of an identifier in its hyphenated form: thirty-two
/// hexadecimal digits and four hyphens.
pub const UUID_LENGTH: usize = 36;

/// `Uuid::new_v4` in the hyphenated form of its `Display`: a random
/// identifier, of which only the length is known beforehand.
#[verifier::external_body]
fn new_v4() -> (id: String)
    ensures
        id@.len() == UUID_LENGTH,
{
    ::uuid::Uuid::new_v4().to_string()
}

/// `Uuid::now_v7` in the hyphenated form of its `Display`: an identifier
/// made of the clock and of random bits, of which only the length is known
/// beforehand.
#[verifier::external_body]
fn now_v7() -> (id: String)
    ensures
        id@.len() == UUID_LENGTH,
{
    ::uuid::Uuid::now_v7().to_string()
}

/// Whether each of the texts has the length of an identifier.
pub open spec fn all_identifiers(ids: Seq<Seq<char>>) -> bool {
    forall|i: int| 0 <= i < ids.len() ==> (#[trigger] ids[i]).len() == UUID_LENGTH
}

/// How many identifiers a request asks for: one where no number is given.
pub open spec fn requested(options: &UuidOptions) -> int {
    match options.number {
        Some(number) => number as int,
        None => 1,
    }
}

/// Whether `r` is the numbered list of as many identifiers as asked for.
pub open spec fn lists_identifiers(
    options: &UuidOptions,
    r: Result<Seq<char>, HandlerFailure>,
) -> bool {
    exists|ids: Seq<Seq<char>>|
        ids.len() == requested(options) && all_identifiers(ids) && r == Ok::<
            Seq<char>,
            HandlerFailure,
        >(numbered(ids, ". "@))
}

/// Whether `r` is what a request may return.
pub open spec fn issued(method: &UuidMethod, r: Result<Seq<char>, HandlerFailure>) -> bool {
    match method {
        UuidMethod::V4 { options } => lists_identifiers(options, r),
        UuidMethod::V7 { options } => lists_identifiers(options, r),
    }
}

/// The numbered list of the given identifiers: number, full stop, space,
/// identifier, line break.
pub fn number_identifiers(ids: &Vec<String>) -> (text: String)
    ensures
        text@ == numbered(strings_view(ids@), ". "@),
{
    let mut text = String::new();
    push_numbered(&mut text, ids, ". ");
    text
}

/// The identifier's version.
#[derive(Clone, Copy, Debug, PartialEq, Eq, Structural)]
pub enum UuidVersion {
    /// Random.
    V4,
    /// Ordered by time.
    V7,
}

fn generate(version: UuidVersion, options: &UuidOptions) -> (r: Result<String, CommandHandlerError>)
    ensures
        lists_identifiers(options, handled(r)),
{
    let count: u32 = match options.number {
        Some(number) => number,
        None => 1,
    };
    let mut ids: Vec<String> = Vec::new();
    while ids.len() < count as usize
        invariant
            ids.len() <= count,
            all_identifiers(strings_view(ids@)),
        decreases count - ids.len(),
    {
        let ghost before = strings_view(ids@);
        let id = match version {
            UuidVersion::V4 => new_v4(),
            UuidVersion::V7 => now_v7(),
        };
        ids.push(id);
        proof {
            assert forall|i: int| 0 <= i < ids@.len() implies (#[trigger] strings_view(
                ids@,
            )[i]).len() == UUID_LENGTH by {
                if i < before.len() {
                    assert(strings_view(ids@)[i] == before[i]);
                }
            }
        }
    }
    let r = Ok(number_identifiers(&ids));
    proof {
        let listed = strings_view(ids@);
        assert(listed.len() == requested(options) && all_identifiers(listed) && handled(r) == Ok::<
            Seq<char>,
            HandlerFailure,
        >(numbered(listed, ". "@)));
    }
    r
}

pub struct UuidHandler {}

impl UuidHandler {
    /// Generates the identifiers that the request asks for. Generation
    /// never fails.
    pub fn handle_method(method: &UuidMethod) -> (r: Result<String, CommandHandlerError>)
        ensures
            issued(method, handled(r)),
    {
        match method {
            UuidMethod::V4 { options } => Self::gen_uuid4(options),
            UuidMethod::V7 { options } => Self::gen_uuid7(options),
        }
    }

    /// Random identifiers (version 4).
    pub fn gen_uuid4(options: &UuidOptions) -> (r: Result<String, CommandHandlerError>)
        ensures
            lists_identifiers(options, handled(r)),
    {
        generate(UuidVersion::V4, options)
    }

    /// Time-ordered identifiers (version 7).
    pub fn gen_uuid7(options: &UuidOptions) -> (r: Result<String, CommandHandlerError>)
        ensures
            lists_identifiers(options, handled(r)),
    {
        generate(UuidVersion::V7, options)
    }
}

} // verus!
