//! The handlers: one for each command, and the dispatcher over them.

pub mod decode;
pub mod encode;
pub mod hash;
pub mod json;
pub mod jwt;
pub mod lorem;
pub mod regex;
pub mod text;
pub mod time;
pub mod uuid;

use vstd::prelude::*;
use crate::cli::{Command, JSONMethod};
use crate::handlers::decode::DecodeHandler;
use crate::handlers::encode::EncodeHandler;
use crate::handlers::hash::HashHandler;
use crate::handlers::json::JSONHandler;
use crate::handlers::jwt::JWTHandler;
use crate::handlers::lorem::LoremHandler;
use crate::handlers::regex::RegexHandler;
use crate::handlers::text::TextHandler;
use crate::handlers::time::TimeHandler;
use crate::handlers::uuid::UuidHandler;
use crate::cli::HashMethod;
use crate::text::{optional_view, strings_view};

verus! {

/// Why a command did not produce its result.
#[derive(Debug, Clone, PartialEq, Eq)]
pub enum CommandHandlerError {
    /// The command failed; the text says how, if anything is known.
    RuntimeError(Option<String>),
    /// The command ran and the answer is no.
    NegativeResult(String),
    /// Arguments that are all required.
    MissingArguments(Vec<String>),
    /// Arguments of which at least one is required.
    MissingArgumentsSome(Vec<String>),
    UnknownError,
}

/// The mathematical content of a [`CommandHandlerError`].
pub ghost enum HandlerFailure {
    RuntimeError(Option<Seq<char>>),
    NegativeResult(Seq<char>),
    MissingArguments(Seq<Seq<char>>),
    MissingArgumentsSome(Seq<Seq<char>>),
    UnknownError,
}

/// What the `{:?}` format of `std` writes for a list of strings.
pub uninterp spec fn debug_text(strings: Seq<Seq<char>>) -> Seq<char>;

/// `format!` with `{:?}` on a list of strings.
#[verifier::external_body]
fn debug_list(strings: &Vec<String>) -> (text: String)
    ensures
        text@ == debug_text(strings_view(strings@)),
{
    format!("{:?}", strings)
}

impl HandlerFailure {
    /// The text shown to the user for this failure.
    pub open spec fn message(self) -> Seq<char> {
        match self {
            HandlerFailure::RuntimeError(Some(text)) => text,
            HandlerFailure::RuntimeError(None) => "A runtime error occurred!"@,
            HandlerFailure::NegativeResult(text) => text,
            HandlerFailure::MissingArguments(names) => "Required arguments: "@ + debug_text(names),
            HandlerFailure::MissingArgumentsSome(names) =>
                "At least one of the following arguments must be provided: "@ + debug_text(names),
            HandlerFailure::UnknownError => "Unknown error"@,
        }
    }
}

impl View for CommandHandlerError {
    type V = HandlerFailure;

    open spec fn view(&self) -> HandlerFailure {
        match self {
            CommandHandlerError::RuntimeError(text) => HandlerFailure::RuntimeError(
                optional_view(*text),
            ),
            CommandHandlerError::NegativeResult(text) => HandlerFailure::NegativeResult(text@),
            CommandHandlerError::MissingArguments(names) => HandlerFailure::MissingArguments(
                strings_view(names@),
            ),
            CommandHandlerError::MissingArgumentsSome(names) =>
                HandlerFailure::MissingArgumentsSome(strings_view(names@)),
            CommandHandlerError::UnknownError => HandlerFailure::UnknownError,
        }
    }
}

impl CommandHandlerError {
    /// The text shown to the user for this failure.
    pub fn message(&self) -> (text: String)
        ensures
            text@ == self@.message(),
    {
        match self {
            CommandHandlerError::RuntimeError(Some(text)) => text.clone(),
            CommandHandlerError::RuntimeError(None) => String::from_str(
                "A runtime error occurred!",
            ),
            CommandHandlerError::NegativeResult(text) => text.clone(),
            CommandHandlerError::MissingArguments(names) => {
                let mut text = String::from_str("Required arguments: ");
                text.append(debug_list(names).as_str());
                text
            },
            CommandHandlerError::MissingArgumentsSome(names) => {
                let mut text = String::from_str(
                    "At least one of the following arguments must be provided: ",
                );
                text.append(debug_list(names).as_str());
                text
            },
            CommandHandlerError::UnknownError => String::from_str("Unknown error"),
        }
    }

    /// A runtime failure with the given text.
    pub fn runtime(text: String) -> (e: CommandHandlerError)
        ensures
            e@ == HandlerFailure::RuntimeError(Some(text@)),
    {
        CommandHandlerError::RuntimeError(Some(text))
    }
}

/// What became of the file that a command names. Reading is the caller's
/// part; the handlers work on what was read.
#[derive(Debug, Clone, PartialEq, Eq)]
pub enum FileInput {
    /// No file was read.
    Absent,
    /// The file's text.
    Text(String),
    /// Why the file could not be read.
    Unreadable(String),
}

/// The mathematical content of a [`FileInput`].
pub ghost enum FileContent {
    Absent,
    Text(Seq<char>),
    Unreadable(Seq<char>),
}

impl View for FileInput {
    type V = FileContent;

    open spec fn view(&self) -> FileContent {
        match self {
            FileInput::Absent => FileContent::Absent,
            FileInput::Text(text) => FileContent::Text(text@),
            FileInput::Unreadable(why) => FileContent::Unreadable(why@),
        }
    }
}

/// The mathematical content of a handler's outcome.
pub open spec fn handled(r: Result<String, CommandHandlerError>) -> Result<
    Seq<char>,
    HandlerFailure,
> {
    match r {
        Ok(text) => Ok(text@),
        Err(e) => Err(e@),
    }
}

/// The path of the file that a command reads, if it reads one.
pub open spec fn path_of(command: &Command) -> Option<Seq<char>> {
    match command {
        Command::Json { method } => match method {
            JSONMethod::Format { options } => optional_view(options.file),
            JSONMethod::Minify { options } => Some(options.file@),
            JSONMethod::Validate { options } => Some(options.file@),
        },
        Command::Hash { method } => match method {
            HashMethod::File { options } => Some(options.path@),
            _ => None,
        },
        _ => None,
    }
}

/// Whether `r` is what a command may return for a given reading of its
/// file: what the command's handler allows.
pub open spec fn fulfils(
    command: &Command,
    input: FileContent,
    r: Result<Seq<char>, HandlerFailure>,
) -> bool {
    match command {
        Command::Json { method } => r == crate::handlers::json::answered(method, input),
        Command::Encode { method } => r == Ok::<Seq<char>, HandlerFailure>(
            crate::handlers::encode::encoded(method),
        ),
        Command::Decode { method } => r == crate::handlers::decode::decoded(method),
        Command::Hash { method } => r == crate::handlers::hash::hashed(method, input),
        Command::Uuid { method } => crate::handlers::uuid::issued(method, r),
        Command::Time { method } => crate::handlers::time::served(method, r),
        Command::Text { method } => r == Ok::<Seq<char>, HandlerFailure>(
            crate::handlers::text::recased(method),
        ),
        Command::Jwt { method } => crate::handlers::jwt::settled(method, r),
        Command::Regex { method } => r == crate::handlers::regex::answered(method),
        Command::Lorem { method } => crate::handlers::lorem::generated(method, r),
    }
}

/// A command ready to be carried out.
pub struct CommandHandler {
    command: Command,
}

impl CommandHandler {
    /// The command that this handler carries out.
    pub closed spec fn command(&self) -> Command {
        self.command
    }

    pub fn new(command: Command) -> (handler: Self)
        ensures
            handler.command() == command,
    {
        CommandHandler { command }
    }

    /// The path of the file that the command needs read before it can be
    /// carried out, if it needs one.
    pub fn input_path(&self) -> (path: Option<&String>)
        ensures
            match path {
                Some(path) => path_of(&self.command()) == Some(path@),
                None => path_of(&self.command()) is None,
            },
    {
        match &self.command {
            Command::Json { method } => match method {
                JSONMethod::Format { options } => match &options.file {
                    Some(path) => Some(path),
                    None => None,
                },
                JSONMethod::Minify { options } => Some(&options.file),
                JSONMethod::Validate { options } => Some(&options.file),
            },
            Command::Hash { method } => match method {
                HashMethod::File { options } => Some(&options.path),
                _ => None,
            },
            _ => None,
        }
    }

    /// Carries the command out with the handler that belongs to it.
    /// `input` is what reading the file of [`Self::input_path`] gave.
    pub fn handle(&self, input: &FileInput) -> (r: Result<String, CommandHandlerError>)
        ensures
            fulfils(&self.command(), input@, handled(r)),
    {
        match &self.command {
            Command::Json { method } => JSONHandler::handle_method(method, input),
            Command::Encode { method } => EncodeHandler::handle_method(method),
            Command::Decode { method } => DecodeHandler::handle_method(method),
            Command::Hash { method } => HashHandler::handle_method(method, input),
            Command::Uuid { method } => UuidHandler::handle_method(method),
            Command::Time { method } => TimeHandler::handle_method(method),
            Command::Text { method } => TextHandler::handle_method(method),
            Command::Jwt { method } => JWTHandler::handle_method(method),
            Command::Regex { method } => RegexHandler::handle_method(method),
            Command::Lorem { method } => LoremHandler::handle_method(method),
        }
    }
}

} // verus!
