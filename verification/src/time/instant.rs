//! Points in time, counted in whole seconds from the epoch,
//! 1970-01-01T00:00:00 UTC.

use vstd::prelude::*;
use crate::text::{i64_to_string, signed_decimal};
use crate::time::calendar::{
    clock_epoch_seconds, is_representable, representable, rfc3339_utc, utc_rfc3339,
};
use crate::time::error::{TimeError, TimeFailure};

verus! {

/// A point in time that the calendar can show. It is anchored in UTC and
/// carries no zone.
#[derive(Clone, Copy, Debug)]
pub struct Instant {
    secs: i64,
}

impl View for Instant {
    type V = int;

    closed spec fn view(&self) -> int {
        self.secs as int
    }
}

/// The distance between two counts of seconds.
pub open spec fn distance(a: int, b: int) -> int {
    if a >= b {
        a - b
    } else {
        b - a
    }
}

impl Instant {
    #[verifier::type_invariant]
    spec fn in_range(self) -> bool {
        representable(self.secs as int)
    }

    /// The instant `secs` seconds from the epoch, if the calendar reaches
    /// that far.
    pub fn from_epoch_seconds(secs: i64) -> (r: Option<Instant>)
        ensures
            match r {
                Some(instant) => representable(secs as int) && instant@ == secs,
                None => !representable(secs as int),
            },
    {
        if is_representable(secs) {
            Some(Instant { secs })
        } else {
            None
        }
    }

    /// The instant `secs` seconds from the epoch, or the failure that names
    /// `secs` as out of range.
    pub fn checked(secs: i64) -> (r: Result<Instant, TimeError>)
        ensures
            match r {
                Ok(instant) => representable(secs as int) && instant@ == secs,
                Err(e) => !representable(secs as int) && e@ == TimeFailure::InvalidTimestamp(
                    secs as int,
                ),
            },
    {
        match Self::from_epoch_seconds(secs) {
            Some(instant) => Ok(instant),
            None => Err(TimeError::InvalidTimestamp(secs)),
        }
    }

    /// The present instant by the system clock.
    pub fn now() -> (instant: Instant)
        ensures
            representable(instant@),
    {
        Instant { secs: clock_epoch_seconds() }
    }

    /// The seconds from the epoch to this instant.
    pub fn epoch_seconds(&self) -> (secs: i64)
        ensures
            secs == self@,
            representable(secs as int),
    {
        proof {
            use_type_invariant(self);
        }
        self.secs
    }

    /// The seconds that lie between this instant and `other`, whichever
    /// comes first.
    pub fn seconds_between(&self, other: &Instant) -> (span: u64)
        ensures
            span == distance(self@, other@),
    {
        proof {
            use_type_invariant(self);
            use_type_invariant(other);
        }
        if self.secs >= other.secs {
            (self.secs - other.secs) as u64
        } else {
            (other.secs - self.secs) as u64
        }
    }

    /// The epoch seconds in decimal.
    pub fn to_decimal(&self) -> (text: String)
        ensures
            text@ == signed_decimal(self@),
    {
        i64_to_string(self.secs)
    }

    /// The instant as a UTC date and time in RFC 3339 form.
    pub fn to_rfc3339(&self) -> (text: String)
        ensures
            text@ == rfc3339_utc(self@),
    {
        proof {
            use_type_invariant(self);
        }
        utc_rfc3339(self.secs)
    }
}

} // verus!
