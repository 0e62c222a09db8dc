//! The `time` command: the door to the temporal conversion engine.

use vstd::prelude::*;
use crate::cli::{
    TimeAgoOptions, TimeFormatOptions, TimeFromUnixOptions, TimeMethod, TimeNowOptions,
    TimeToUnixOptions,
};
use crate::handlers::{handled, CommandHandlerError, HandlerFailure};
use crate::text::{optional_view, signed_decimal};
use crate::time::calendar::representable;
use crate::time::classify::{has_offset_token_spec, FormatClassifier};
use crate::time::convert::{
    bulleted, format_spec, from_unix_spec, now_pattern, relative_spec, shown_in_zone,
    to_unix_spec, TimestampConverter,
};
use crate::time::error::{outcome, TimeError, TimeFailure};
use crate::time::zone::{lists_database, zone_name_at};

verus! {

/// Whether `r` is an outcome that the request allows. The requests that
/// read no clock allow one outcome; the others allow what some moment
/// within the calendar's range gives.
pub open spec fn answers(method: &TimeMethod, r: Result<Seq<char>, TimeFailure>) -> bool {
    match method {
        TimeMethod::Now { options } => match options.timezone {
            Some(zone) => exists|secs: int| representable(secs) && r == shown_in_zone(secs, zone@),
            None => r matches Err(e) ==> e == TimeFailure::UnrenderablePattern(now_pattern()),
        },
        TimeMethod::Unix => exists|secs: int|
            representable(secs) && r == Ok::<Seq<char>, TimeFailure>(signed_decimal(secs)),
        TimeMethod::FromUnix { options } => r == from_unix_spec(
            options.timestamp as int,
            optional_view(options.timezone),
        ),
        TimeMethod::ToUnix { options } => r == to_unix_spec(options.date@, options.format@),
        TimeMethod::Relative { options } => exists|now: int|
            representable(now) && r == relative_spec(
                options.timestamp as int,
                options.start,
                now,
            ),
        TimeMethod::Format { options } => r == format_spec(
            options.date@,
            options.from@,
            options.target@,
        ),
        TimeMethod::Tz => exists|names: Seq<Seq<char>>|
            lists_database(names) && (zone_name_at(names.len() as int) is None || names.len()
                == usize::MAX) && r == Ok::<Seq<char>, TimeFailure>(bulleted(names)),
    }
}

/// An engine's outcome as the handlers report it: the failure becomes a
/// runtime error that carries the failure's text.
pub open spec fn reported(r: Result<Seq<char>, TimeFailure>) -> Result<Seq<char>, HandlerFailure> {
    match r {
        Ok(text) => Ok(text),
        Err(e) => Err(HandlerFailure::RuntimeError(Some(e.message()))),
    }
}

/// Whether `r` is what the handler may return for a request: the report
/// of an answer that the request allows.
pub open spec fn served(method: &TimeMethod, r: Result<Seq<char>, HandlerFailure>) -> bool {
    exists|answer: Result<Seq<char>, TimeFailure>| answers(method, answer) && r == reported(answer)
}

fn as_str_option(s: &Option<String>) -> (r: Option<&str>)
    ensures
        match r {
            Some(r) => *s matches Some(s) && r@ == s@,
            None => *s is None,
        },
{
    match s {
        Some(s) => Some(s.as_str()),
        None => None,
    }
}

pub struct TimeHandler {}

impl TimeHandler {
    /// Carries out one request and returns the text to show, or the failure.
    pub fn execute(method: &TimeMethod) -> (r: Result<String, TimeError>)
        ensures
            answers(method, outcome(r)),
    {
        match method {
            TimeMethod::Now { options } => Self::get_current_datetime(options),
            TimeMethod::Unix => Ok(TimestampConverter::unix_now()),
            TimeMethod::FromUnix { options } => Self::convert_from_unix(options),
            TimeMethod::ToUnix { options } => Self::convert_to_unix(options),
            TimeMethod::Relative { options } => Self::calculate_relative_time(options),
            TimeMethod::Format { options } => Self::format_date(options),
            TimeMethod::Tz => Ok(TimestampConverter::list_timezones()),
        }
    }

    /// Carries out one request; a failure is reported as a runtime error
    /// with the failure's text.
    pub fn handle_method(method: &TimeMethod) -> (r: Result<String, CommandHandlerError>)
        ensures
            served(method, handled(r)),
    {
        let answer = Self::execute(method);
        let r = match answer {
            Ok(text) => Ok(text),
            Err(e) => Err(CommandHandlerError::runtime(e.message())),
        };
        proof {
            assert(answers(method, outcome(answer)) && handled(r) == reported(outcome(answer)));
        }
        r
    }

    pub fn get_current_datetime(options: &TimeNowOptions) -> (r: Result<String, TimeError>)
        ensures
            answers(&TimeMethod::Now { options: *options }, outcome(r)),
    {
        TimestampConverter::now(as_str_option(&options.timezone))
    }

    pub fn convert_from_unix(options: &TimeFromUnixOptions) -> (r: Result<String, TimeError>)
        ensures
            outcome(r) == from_unix_spec(
                options.timestamp as int,
                optional_view(options.timezone),
            ),
    {
        TimestampConverter::from_unix(options.timestamp, as_str_option(&options.timezone))
    }

    pub fn convert_to_unix(options: &TimeToUnixOptions) -> (r: Result<String, TimeError>)
        ensures
            outcome(r) == to_unix_spec(options.date@, options.format@),
    {
        TimestampConverter::to_unix(options.date.as_str(), options.format.as_str())
    }

    pub fn calculate_relative_time(options: &TimeAgoOptions) -> (r: Result<String, TimeError>)
        ensures
            answers(&TimeMethod::Relative { options: *options }, outcome(r)),
    {
        TimestampConverter::relative(options.timestamp, options.start)
    }

    pub fn format_date(options: &TimeFormatOptions) -> (r: Result<String, TimeError>)
        ensures
            outcome(r) == format_spec(options.date@, options.from@, options.target@),
    {
        TimestampConverter::format(
            options.date.as_str(),
            options.from.as_str(),
            options.target.as_str(),
        )
    }

    /// The text that tells the user a timezone's name is unknown and how to
    /// list the known ones.
    pub fn invalid_tz_message(timezone: &str) -> (text: String)
        ensures
            text@ == TimeFailure::InvalidTimezone(timezone@).message(),
    {
        TimeError::InvalidTimezone(String::from_str(timezone)).message()
    }

    /// Whether a pattern names a UTC offset or a zone abbreviation.
    pub fn has_format_timezone(format: &str) -> (found: bool)
        ensures
            found == has_offset_token_spec(format@),
    {
        FormatClassifier::has_offset_token(format)
    }
}

} // verus!
