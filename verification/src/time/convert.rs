//! The conversions: the present moment, epoch seconds to text and back,
//! reformatting, the span between two instants, and the list of zones.

use vstd::prelude::*;
use crate::text::{i64_to_string, signed_decimal, strings_view};
use crate::time::calendar::{local_now_text, representable, rfc3339_utc};
use crate::time::duration::{breakdown_of, DurationDecomposer};
use crate::time::error::{outcome, TimeError, TimeFailure};
use crate::time::instant::{distance, Instant};
use crate::time::parsed::{parsed, ParsedDate};
use crate::time::zone::{
    lists_database, rfc3339_in_zone, text_in_zone, zone_known, zone_name_at,
    TimezoneResolver,
};

verus! {

/// The characters of an optional string slice.
pub open spec fn name_view(name: Option<&str>) -> Option<Seq<char>> {
    match name {
        Some(name) => Some(name@),
        None => None,
    }
}

/// The pattern in which the present moment is shown: day, month, year,
/// time of day and the zone's abbreviation.
pub open spec fn now_pattern() -> Seq<char> {
    "%d/%m/%Y %H:%M:%S %Z"@
}

/// The instant `secs` shown in a named zone after the pattern of the
/// present moment.
pub open spec fn shown_in_zone(secs: int, zone: Seq<char>) -> Result<Seq<char>, TimeFailure> {
    if !zone_known(zone) {
        Err(TimeFailure::InvalidTimezone(zone))
    } else {
        match text_in_zone(secs, zone, now_pattern()) {
            Some(text) => Ok(text),
            None => Err(TimeFailure::UnrenderablePattern(now_pattern())),
        }
    }
}

/// Epoch seconds as an RFC 3339 date and time, in UTC or in a named zone.
/// The range of the seconds is checked before the zone's name.
pub open spec fn from_unix_spec(timestamp: int, zone: Option<Seq<char>>) -> Result<
    Seq<char>,
    TimeFailure,
> {
    if !representable(timestamp) {
        Err(TimeFailure::InvalidTimestamp(timestamp))
    } else {
        match zone {
            None => Ok(rfc3339_utc(timestamp)),
            Some(zone) => if zone_known(zone) {
                Ok(rfc3339_in_zone(timestamp, zone))
            } else {
                Err(TimeFailure::InvalidTimezone(zone))
            },
        }
    }
}

/// A date string as epoch seconds in decimal.
pub open spec fn to_unix_spec(date: Seq<char>, pattern: Seq<char>) -> Result<
    Seq<char>,
    TimeFailure,
> {
    match parsed(date, pattern) {
        Ok(value) => Ok(signed_decimal(value.epoch())),
        Err(e) => Err(e),
    }
}

/// A date string read after one pattern and written after another.
pub open spec fn format_spec(date: Seq<char>, from: Seq<char>, to: Seq<char>) -> Result<
    Seq<char>,
    TimeFailure,
> {
    match parsed(date, from) {
        Ok(value) => value.rendered(to),
        Err(e) => Err(e),
    }
}

/// The instant that a span is measured from: `start` where it is given and
/// within the calendar's range, the present instant otherwise.
pub open spec fn reference_point(start: Option<i64>, now: int) -> int {
    match start {
        Some(start) => if representable(start as int) {
            start as int
        } else {
            now
        },
        None => now,
    }
}

/// The span between `timestamp` and the reference point, broken down and
/// rendered.
pub open spec fn relative_spec(timestamp: int, start: Option<i64>, now: int) -> Result<
    Seq<char>,
    TimeFailure,
> {
    if !representable(timestamp) {
        Err(TimeFailure::InvalidTimestamp(timestamp))
    } else {
        Ok(
            breakdown_of(
                distance(timestamp, reference_point(start, now)) as u64,
            ).rendered(),
        )
    }
}

/// One line for each name, a hyphen and a space before it; a line break
/// between two lines and none at the end.
pub open spec fn bulleted(names: Seq<Seq<char>>) -> Seq<char>
    decreases names.len(),
{
    if names.len() == 0 {
        Seq::empty()
    } else if names.len() == 1 {
        "- "@ + names[0]
    } else {
        bulleted(names.drop_last()) + "\n"@ + "- "@ + names.last()
    }
}

/// Renders `names` as a bulleted list.
pub fn bullet_list(names: &Vec<String>) -> (text: String)
    ensures
        text@ == bulleted(strings_view(names@)),
{
    let mut text = String::new();
    let mut index: usize = 0;
    while index < names.len()
        invariant
            index <= names.len(),
            text@ == bulleted(strings_view(names@).take(index as int)),
        decreases names.len() - index,
    {
        let ghost before = strings_view(names@).take(index as int);
        let ghost after = strings_view(names@).take(index + 1);
        if index > 0 {
            text.append("\n");
        }
        text.append("- ");
        text.append(names[index].as_str());
        proof {
            assert(after.drop_last() =~= before);
            assert(after.last() == names@[index as int]@);
            if index == 0 {
                assert(before =~= Seq::<Seq<char>>::empty());
                assert(text@ =~= "- "@ + names@[0]@);
                assert(after[0] == names@[0]@);
            }
        }
        index += 1;
    }
    proof {
        assert(strings_view(names@).take(names.len() as int) =~= strings_view(names@));
    }
    text
}

pub struct TimestampConverter {}

impl TimestampConverter {
    /// The instant `now` for display in the named zone.
    pub fn now_in_zone(now: &Instant, zone: &str) -> (r: Result<String, TimeError>)
        ensures
            outcome(r) == shown_in_zone(now@, zone@),
    {
        let pattern = "%d/%m/%Y %H:%M:%S %Z";
        let zone = match TimezoneResolver::resolve(zone) {
            Ok(zone) => zone,
            Err(e) => {
                return Err(e);
            },
        };
        match zone.text(now.epoch_seconds(), pattern) {
            Some(text) => Ok(text),
            None => Err(TimeError::UnrenderablePattern(String::from_str(pattern))),
        }
    }

    /// The present moment for display, in the named zone or, where none is
    /// named, in the zone of this machine. An unknown zone fails whatever
    /// the clock says.
    pub fn now(zone: Option<&str>) -> (r: Result<String, TimeError>)
        ensures
            match zone {
                Some(zone) => {
                    &&& exists|secs: int|
                        representable(secs) && outcome(r) == shown_in_zone(secs, zone@)
                    &&& !zone_known(zone@) ==> outcome(r) == Err::<Seq<char>, TimeFailure>(
                        TimeFailure::InvalidTimezone(zone@),
                    )
                },
                None => r matches Err(e) ==> e@ == TimeFailure::UnrenderablePattern(now_pattern()),
            },
    {
        match zone {
            Some(name) => {
                let now = Instant::now();
                let r = Self::now_in_zone(&now, name);
                proof {
                    assert(representable(now@) && outcome(r) == shown_in_zone(now@, name@));
                }
                r
            },
            None => {
                let pattern = "%d/%m/%Y %H:%M:%S %Z";
                match local_now_text(pattern) {
                    Some(text) => Ok(text),
                    None => Err(TimeError::UnrenderablePattern(String::from_str(pattern))),
                }
            },
        }
    }

    /// The epoch seconds of `now` in decimal.
    pub fn unix_at(now: &Instant) -> (text: String)
        ensures
            text@ == signed_decimal(now@),
    {
        now.to_decimal()
    }

    /// The epoch seconds of the present moment in decimal.
    pub fn unix_now() -> (text: String)
        ensures
            exists|secs: int| representable(secs) && text@ == signed_decimal(secs),
    {
        let now = Instant::now();
        let text = Self::unix_at(&now);
        proof {
            assert(representable(now@) && text@ == signed_decimal(now@));
        }
        text
    }

    /// Epoch seconds as an RFC 3339 date and time: in UTC, or in the named
    /// zone with the offset that the zone keeps at that instant.
    pub fn from_unix(timestamp: i64, zone: Option<&str>) -> (r: Result<String, TimeError>)
        ensures
            outcome(r) == from_unix_spec(timestamp as int, name_view(zone)),
    {
        let instant = match Instant::checked(timestamp) {
            Ok(instant) => instant,
            Err(e) => {
                return Err(e);
            },
        };
        match zone {
            Some(name) => match TimezoneResolver::resolve(name) {
                Ok(zone) => Ok(zone.rfc3339(instant.epoch_seconds())),
                Err(e) => Err(e),
            },
            None => Ok(instant.to_rfc3339()),
        }
    }

    /// The epoch seconds of a date string read after `pattern`, in decimal.
    pub fn to_unix(date: &str, pattern: &str) -> (r: Result<String, TimeError>)
        ensures
            outcome(r) == to_unix_spec(date@, pattern@),
    {
        match ParsedDate::parse(date, pattern) {
            Ok(value) => Ok(i64_to_string(value.epoch_seconds())),
            Err(e) => Err(e),
        }
    }

    /// A date string read after `from` and written after `to`. A string
    /// with an offset keeps it; the other kinds carry none.
    pub fn format(date: &str, from: &str, to: &str) -> (r: Result<String, TimeError>)
        ensures
            outcome(r) == format_spec(date@, from@, to@),
    {
        match ParsedDate::parse(date, from) {
            Ok(value) => value.render(to),
            Err(e) => Err(e),
        }
    }

    /// The span between `timestamp` and `start`, rendered by unit, with
    /// `now` standing in where `start` is missing or out of range.
    pub fn relative_at(timestamp: i64, start: Option<i64>, now: &Instant) -> (r: Result<
        String,
        TimeError,
    >)
        ensures
            outcome(r) == relative_spec(timestamp as int, start, now@),
    {
        let target = match Instant::checked(timestamp) {
            Ok(instant) => instant,
            Err(e) => {
                return Err(e);
            },
        };
        let reference = match start {
            Some(start) => match Instant::from_epoch_seconds(start) {
                Some(instant) => instant,
                None => *now,
            },
            None => *now,
        };
        Ok(DurationDecomposer::describe(target.seconds_between(&reference)))
    }

    /// The span between `timestamp` and `start`, rendered by unit. The
    /// clock is read only where `start` is missing or out of range.
    pub fn relative(timestamp: i64, start: Option<i64>) -> (r: Result<String, TimeError>)
        ensures
            exists|now: int|
                representable(now) && outcome(r) == relative_spec(timestamp as int, start, now),
            match start {
                Some(given) => representable(given as int) ==> outcome(r) == relative_spec(
                    timestamp as int,
                    start,
                    given as int,
                ),
                None => true,
            },
            !representable(timestamp as int) ==> outcome(r) == Err::<Seq<char>, TimeFailure>(
                TimeFailure::InvalidTimestamp(timestamp as int),
            ),
    {
        let now = match start {
            Some(given) => match Instant::from_epoch_seconds(given) {
                Some(instant) => instant,
                None => Instant::now(),
            },
            None => Instant::now(),
        };
        let r = Self::relative_at(timestamp, start, &now);
        proof {
            assert(representable(now@) && outcome(r) == relative_spec(
                timestamp as int,
                start,
                now@,
            ));
        }
        r
    }

    /// The database's identifiers as a bulleted list, one to a line.
    pub fn list_timezones() -> (text: String)
        ensures
            exists|names: Seq<Seq<char>>|
                lists_database(names) && (zone_name_at(names.len() as int) is None || names.len()
                    == usize::MAX) && text@ == bulleted(names),
    {
        let names = TimezoneResolver::list_all();
        let text = bullet_list(&names);
        proof {
            let listed = strings_view(names@);
            assert(lists_database(listed) && (zone_name_at(listed.len() as int) is None
                || listed.len() == usize::MAX) && text@ == bulleted(listed));
        }
        text
    }
}

} // verus!
