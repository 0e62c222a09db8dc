//! The `json` command: pretty-printing, minifying and validating JSON.
//!
//! Parsing and printing are `serde_json`'s. Where a text is not JSON, the
//! handler reports the parser's message and works out where in the text
//! the fault lies.

use vstd::prelude::*;
use crate::cli::{FormatOptions, JSONMethod, MinifyOptions, ValidateOptions};
use crate::handlers::{handled, CommandHandlerError, FileContent, FileInput, HandlerFailure};
use crate::text::{chain, optional_view, strings_view, text_outcome};

verus! {

/// Where and why a text fails to be JSON, as `serde_json` reports it.
#[derive(Debug, Clone, PartialEq, Eq)]
pub struct JsonFault {
    /// The line of the fault, counted from one.
    pub line: usize,
    /// The column of the fault, counted from one; zero at the start of a
    /// line reached by the end of the text.
    pub column: usize,
    /// The parser's message.
    pub message: String,
}

/// The mathematical content of a [`JsonFault`].
pub ghost struct JsonFaultView {
    pub line: int,
    pub column: int,
    pub message: Seq<char>,
}

impl View for JsonFault {
    type V = JsonFaultView;

    open spec fn view(&self) -> JsonFaultView {
        JsonFaultView { line: self.line as int, column: self.column as int, message: self.message@ }
    }
}

/// The content of an optional fault.
pub open spec fn fault_view(fault: Option<JsonFault>) -> Option<JsonFaultView> {
    match fault {
        Some(fault) => Some(fault@),
        None => None,
    }
}

/// The error of `serde_json::from_str` for a text, by line, column and
/// message; `None` where the text is JSON.
pub uninterp spec fn json_fault(text: Seq<char>) -> Option<JsonFaultView>;

/// What `serde_json::to_string_pretty` returns for the value of a JSON
/// text: the indented text, or the message of its error.
pub uninterp spec fn json_pretty(text: Seq<char>) -> Result<Seq<char>, Seq<char>>;

/// What `serde_json::to_string` returns for the value of a JSON text: the
/// text without white space, or the message of its error.
pub uninterp spec fn json_compact(text: Seq<char>) -> Result<Seq<char>, Seq<char>>;

/// The length in bytes of each line that `str::lines` yields for a text.
pub uninterp spec fn line_lengths(text: Seq<char>) -> Seq<usize>;

/// `serde_json::from_str` into a `Value`, of which only the error is kept.
#[verifier::external_body]
fn find_fault(text: &str) -> (fault: Option<JsonFault>)
    ensures
        fault_view(fault) == json_fault(text@),
{
    serde_json::from_str::<serde_json::Value>(text).err().map(
        |e| JsonFault { line: e.line(), column: e.column(), message: e.to_string() },
    )
}

/// `serde_json::to_string_pretty` on the value that the text parses to.
#[verifier::external_body]
fn print_pretty(text: &str) -> (r: Result<String, String>)
    requires
        json_fault(text@) is None,
    ensures
        text_outcome(r) == json_pretty(text@),
{
    let value = serde_json::from_str::<serde_json::Value>(text).unwrap();
    serde_json::to_string_pretty(&value).map_err(|e| e.to_string())
}

/// `serde_json::to_string` on the value that the text parses to.
#[verifier::external_body]
fn print_compact(text: &str) -> (r: Result<String, String>)
    requires
        json_fault(text@) is None,
    ensures
        text_outcome(r) == json_compact(text@),
{
    let value = serde_json::from_str::<serde_json::Value>(text).unwrap();
    serde_json::to_string(&value).map_err(|e| e.to_string())
}

/// `str::lines`, each line by its length in bytes.
#[verifier::external_body]
fn lengths_of_lines(text: &str) -> (lengths: Vec<usize>)
    ensures
        lengths@ == line_lengths(text@),
{
    text.lines().map(|line| line.len()).collect()
}

/// The bytes that the first `count` lines take up, each with one more for
/// its line break.
pub open spec fn bytes_through(lengths: Seq<usize>, count: nat) -> nat
    decreases count,
{
    if count == 0 || lengths.len() == 0 {
        0
    } else if count > lengths.len() {
        bytes_through(lengths, lengths.len())
    } else {
        bytes_through(lengths, (count - 1) as nat) + lengths[count - 1] as nat + 1
    }
}

/// The place of a fault as a count of bytes: past the lines up to the
/// fault's own, then the column less one. Never below zero.
pub open spec fn fault_offset(lengths: Seq<usize>, line: nat, column: nat) -> nat {
    let reached = bytes_through(lengths, line) + column;
    if reached >= 1 {
        (reached - 1) as nat
    } else {
        0
    }
}

/// A count as far as a `usize` can hold it.
pub open spec fn clipped(n: nat) -> usize {
    if n > usize::MAX {
        usize::MAX
    } else {
        n as usize
    }
}

proof fn lemma_bytes_through_grows(lengths: Seq<usize>, count: nat)
    requires
        count < lengths.len(),
    ensures
        bytes_through(lengths, count + 1) == bytes_through(lengths, count) + lengths[count as int]
            + 1,
{
}

/// The place of a fault in a text whose lines have the given lengths.
pub fn offset_of(lengths: &Vec<usize>, line: usize, column: usize) -> (offset: usize)
    ensures
        offset == clipped(fault_offset(lengths@, line as nat, column as nat)),
{
    let lines: usize = if line < lengths.len() {
        line
    } else {
        lengths.len()
    };
    let mut total: usize = 0;
    let mut index: usize = 0;
    while index < lines
        invariant
            index <= lines <= lengths.len(),
            lines == line || (lines == lengths.len() && line > lengths.len()),
            total == bytes_through(lengths@, index as nat),
        decreases lines - index,
    {
        proof {
            lemma_bytes_through_grows(lengths@, index as nat);
        }
        let length = lengths[index];
        if length == usize::MAX || total > usize::MAX - length - 1 {
            proof {
                lemma_bytes_through_monotonic(lengths@, (index + 1) as nat, lines as nat);
                assert(bytes_through(lengths@, line as nat) == bytes_through(
                    lengths@,
                    lines as nat,
                ));
            }
            return usize::MAX;
        }
        total = total + length + 1;
        index += 1;
    }
    proof {
        assert(bytes_through(lengths@, line as nat) == bytes_through(lengths@, lines as nat));
    }
    if column == 0 {
        if total == 0 {
            0
        } else {
            total - 1
        }
    } else if total > usize::MAX - (column - 1) {
        usize::MAX
    } else {
        total + (column - 1)
    }
}

/// The more lines are counted, the more bytes they take up.
proof fn lemma_bytes_through_monotonic(lengths: Seq<usize>, fewer: nat, more: nat)
    requires
        fewer <= more <= lengths.len(),
    ensures
        bytes_through(lengths, fewer) <= bytes_through(lengths, more),
    decreases more,
{
    if fewer < more {
        lemma_bytes_through_monotonic(lengths, fewer, (more - 1) as nat);
        lemma_bytes_through_grows(lengths, (more - 1) as nat);
    }
}

/// A text that is not JSON, with the fault that the parser found in it.
#[derive(Debug, Clone, PartialEq, Eq)]
pub struct JsonDiagnostic {
    /// What the text is called: the file's path, or a phrase for a text
    /// given on the command line.
    pub source_name: String,
    /// The text.
    pub source: String,
    /// Where the fault lies, in bytes from the start of the text.
    pub offset: usize,
    /// `Failed to parse JSON: ` and the parser's message.
    pub message: String,
}

/// A JSON text together with what it is called.
pub struct JsonSource {
    pub name: String,
    pub text: String,
}

/// The name and the text that a request works on, or why there is none:
/// the file where one is named, else the text given directly.
pub open spec fn source_of(
    file: Option<Seq<char>>,
    input: FileContent,
    content: Option<Seq<char>>,
) -> Result<(Seq<char>, Seq<char>), HandlerFailure> {
    match file {
        Some(path) => match input {
            FileContent::Text(text) => Ok((path, text)),
            FileContent::Unreadable(why) => Err(
                HandlerFailure::RuntimeError(Some("Failed to read JSON file! "@ + why)),
            ),
            FileContent::Absent => Err(HandlerFailure::MissingArguments(seq!["file"@])),
        },
        None => match content {
            Some(text) => Ok(("Provided JSON content"@, text)),
            None => Err(HandlerFailure::MissingArgumentsSome(seq!["file"@, "content"@])),
        },
    }
}

/// The failure for a text that is not JSON.
pub open spec fn parse_failure(fault: JsonFaultView) -> HandlerFailure {
    HandlerFailure::RuntimeError(Some("Failed to parse JSON: "@ + fault.message))
}

/// The kind of work a request asks for.
#[derive(Clone, Copy, Debug, PartialEq, Eq, Structural)]
pub enum JsonTask {
    Format,
    Minify,
    Validate,
}

/// What a task makes of a text.
pub open spec fn worked(task: JsonTask, text: Seq<char>) -> Result<Seq<char>, HandlerFailure> {
    match json_fault(text) {
        Some(fault) => Err(parse_failure(fault)),
        None => match task {
            JsonTask::Format => match json_pretty(text) {
                Ok(pretty) => Ok(pretty),
                Err(why) => Err(
                    HandlerFailure::RuntimeError(Some("Failed to prettify JSON! "@ + why)),
                ),
            },
            JsonTask::Minify => match json_compact(text) {
                Ok(compact) => Ok(compact),
                Err(why) => Err(
                    HandlerFailure::RuntimeError(Some("Failed to minify JSON! "@ + why)),
                ),
            },
            JsonTask::Validate => Ok("The provided JSON is valid!"@),
        },
    }
}

/// What a task returns for a request's file and content.
pub open spec fn processed(
    task: JsonTask,
    file: Option<Seq<char>>,
    input: FileContent,
    content: Option<Seq<char>>,
) -> Result<Seq<char>, HandlerFailure> {
    match source_of(file, input, content) {
        Ok(source) => worked(task, source.1),
        Err(e) => Err(e),
    }
}

/// What a request returns for a given reading of the file.
pub open spec fn answered(method: &JSONMethod, input: FileContent) -> Result<
    Seq<char>,
    HandlerFailure,
> {
    match method {
        JSONMethod::Format { options } => processed(
            JsonTask::Format,
            optional_view(options.file),
            input,
            optional_view(options.content),
        ),
        JSONMethod::Minify { options } => processed(
            JsonTask::Minify,
            Some(options.file@),
            input,
            None,
        ),
        JSONMethod::Validate { options } => processed(
            JsonTask::Validate,
            Some(options.file@),
            input,
            None,
        ),
    }
}

fn single(name: &str) -> (names: Vec<String>)
    ensures
        strings_view(names@) == seq![name@],
{
    let mut names: Vec<String> = Vec::new();
    names.push(String::from_str(name));
    proof {
        assert(strings_view(names@) =~= seq![name@]);
    }
    names
}

fn pair(first: &str, second: &str) -> (names: Vec<String>)
    ensures
        strings_view(names@) == seq![first@, second@],
{
    let mut names: Vec<String> = Vec::new();
    names.push(String::from_str(first));
    names.push(String::from_str(second));
    proof {
        assert(strings_view(names@) =~= seq![first@, second@]);
    }
    names
}

pub struct JSONHandler {}

impl JSONHandler {
    /// Carries out a request. `input` is what reading the file gave, for a
    /// request that names one.
    pub fn handle_method(method: &JSONMethod, input: &FileInput) -> (r: Result<
        String,
        CommandHandlerError,
    >)
        ensures
            handled(r) == answered(method, input@),
    {
        match method {
            JSONMethod::Format { options } => Self::format(options, input),
            JSONMethod::Minify { options } => Self::minify(options, input),
            JSONMethod::Validate { options } => Self::validate(options, input),
        }
    }

    /// The text that a request works on and what it is called: the file's
    /// text where a file is named, else the content given directly.
    pub fn extract_json(file: Option<&String>, input: &FileInput, content: Option<&String>) -> (r:
        Result<JsonSource, CommandHandlerError>)
        ensures
            match r {
                Ok(source) => source_of(
                    match file {
                        Some(path) => Some(path@),
                        None => None,
                    },
                    input@,
                    match content {
                        Some(text) => Some(text@),
                        None => None,
                    },
                ) == Ok::<(Seq<char>, Seq<char>), HandlerFailure>((source.name@, source.text@)),
                Err(e) => source_of(
                    match file {
                        Some(path) => Some(path@),
                        None => None,
                    },
                    input@,
                    match content {
                        Some(text) => Some(text@),
                        None => None,
                    },
                ) == Err::<(Seq<char>, Seq<char>), HandlerFailure>(e@),
            },
    {
        match file {
            Some(path) => match input {
                FileInput::Text(text) => Ok(JsonSource { name: path.clone(), text: text.clone() }),
                FileInput::Unreadable(why) => Err(
                    CommandHandlerError::runtime(
                        chain("Failed to read JSON file! ", why.as_str()),
                    ),
                ),
                FileInput::Absent => Err(CommandHandlerError::MissingArguments(single("file"))),
            },
            None => match content {
                Some(text) => Ok(
                    JsonSource {
                        name: String::from_str("Provided JSON content"),
                        text: text.clone(),
                    },
                ),
                None => Err(CommandHandlerError::MissingArgumentsSome(pair("file", "content"))),
            },
        }
    }

    /// Carries out `task` on a text.
    pub fn work(task: JsonTask, text: &str) -> (r: Result<String, CommandHandlerError>)
        ensures
            handled(r) == worked(task, text@),
    {
        match find_fault(text) {
            Some(fault) => Err(
                CommandHandlerError::runtime(
                    chain("Failed to parse JSON: ", fault.message.as_str()),
                ),
            ),
            None => match task {
                JsonTask::Format => match print_pretty(text) {
                    Ok(pretty) => Ok(pretty),
                    Err(why) => Err(
                        CommandHandlerError::runtime(
                            chain("Failed to prettify JSON! ", why.as_str()),
                        ),
                    ),
                },
                JsonTask::Minify => match print_compact(text) {
                    Ok(compact) => Ok(compact),
                    Err(why) => Err(
                        CommandHandlerError::runtime(
                            chain("Failed to minify JSON! ", why.as_str()),
                        ),
                    ),
                },
                JsonTask::Validate => Ok(String::from_str("The provided JSON is valid!")),
            },
        }
    }

    /// Where a named text fails to be JSON, for display next to the text;
    /// `None` where it is JSON.
    pub fn diagnose(source: &JsonSource) -> (r: Option<JsonDiagnostic>)
        ensures
            match r {
                Some(found) => json_fault(source.text@) matches Some(fault) && found.source_name@
                    == source.name@ && found.source@ == source.text@ && found.message@
                    == "Failed to parse JSON: "@ + fault.message && found.offset == clipped(
                    fault_offset(
                        line_lengths(source.text@),
                        fault.line as nat,
                        fault.column as nat,
                    ),
                ),
                None => json_fault(source.text@) is None,
            },
    {
        match find_fault(source.text.as_str()) {
            Some(fault) => {
                let lengths = lengths_of_lines(source.text.as_str());
                Some(
                    JsonDiagnostic {
                        source_name: source.name.clone(),
                        source: source.text.clone(),
                        offset: offset_of(&lengths, fault.line, fault.column),
                        message: chain("Failed to parse JSON: ", fault.message.as_str()),
                    },
                )
            },
            None => None,
        }
    }

    pub fn format(options: &FormatOptions, input: &FileInput) -> (r: Result<
        String,
        CommandHandlerError,
    >)
        ensures
            handled(r) == processed(
                JsonTask::Format,
                optional_view(options.file),
                input@,
                optional_view(options.content),
            ),
    {
        let file = match &options.file {
            Some(path) => Some(path),
            None => None,
        };
        let content = match &options.content {
            Some(text) => Some(text),
            None => None,
        };
        match Self::extract_json(file, input, content) {
            Ok(source) => Self::work(JsonTask::Format, source.text.as_str()),
            Err(e) => Err(e),
        }
    }

    pub fn minify(options: &MinifyOptions, input: &FileInput) -> (r: Result<
        String,
        CommandHandlerError,
    >)
        ensures
            handled(r) == processed(JsonTask::Minify, Some(options.file@), input@, None),
    {
        match Self::extract_json(Some(&options.file), input, None) {
            Ok(source) => Self::work(JsonTask::Minify, source.text.as_str()),
            Err(e) => Err(e),
        }
    }

    pub fn validate(options: &ValidateOptions, input: &FileInput) -> (r: Result<
        String,
        CommandHandlerError,
    >)
        ensures
            handled(r) == processed(JsonTask::Validate, Some(options.file@), input@, None),
    {
        match Self::extract_json(Some(&options.file), input, None) {
            Ok(source) => Self::work(JsonTask::Validate, source.text.as_str()),
            Err(e) => Err(e),
        }
    }
}

} // verus!
