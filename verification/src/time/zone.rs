//! Timezone names and the database behind them.
//!
//! The database is `chrono-tz`'s: the zones of the IANA database it was
//! built from, each under its identifier such as `Europe/Sofia`.

use vstd::prelude::*;
use crate::text::{optional_view, strings_view};
use crate::time::calendar::representable;
use crate::time::error::{TimeError, TimeFailure};

verus! {

/// Whether the database holds a zone under this name: whether
/// `chrono_tz::Tz::from_str` accepts it.
pub uninterp spec fn zone_known(name: Seq<char>) -> bool;

/// The identifier of the database's zone number `index`, counting from
/// zero in the order of `chrono_tz::TZ_VARIANTS`, or `None` from the
/// number of zones on.
pub uninterp spec fn zone_name_at(index: int) -> Option<Seq<char>>;

/// What `DateTime::to_rfc3339` returns for the date and time that lies
/// `secs` seconds from the epoch, shown in the named zone.
pub uninterp spec fn rfc3339_in_zone(secs: int, zone: Seq<char>) -> Seq<char>;

/// What `DateTime::format` writes for the date and time that lies `secs`
/// seconds from the epoch, shown in the named zone, or `None` where the
/// pattern cannot be written for it.
pub uninterp spec fn text_in_zone(secs: int, zone: Seq<char>, pattern: Seq<char>) -> Option<
    Seq<char>,
>;

/// `chrono_tz::Tz::from_str`: whether the name is one of the database's
/// identifiers, letter for letter.
#[verifier::external_body]
fn lookup(name: &str) -> (known: bool)
    ensures
        known == zone_known(name@),
{
    name.parse::<chrono_tz::Tz>().is_ok()
}

/// `chrono_tz::TZ_VARIANTS` at `index`, as the zone's `Tz::name`.
#[verifier::external_body]
fn name_at(index: usize) -> (name: Option<String>)
    ensures
        optional_view(name) == zone_name_at(index as int),
{
    chrono_tz::TZ_VARIANTS.get(index).map(|zone| zone.name().to_string())
}

/// `DateTime::with_timezone` into the named zone, then
/// `DateTime::to_rfc3339`.
#[verifier::external_body]
fn zoned_rfc3339(secs: i64, zone: &str) -> (text: String)
    requires
        representable(secs as int),
        zone_known(zone@),
    ensures
        text@ == rfc3339_in_zone(secs as int, zone@),
{
    let tz: chrono_tz::Tz = zone.parse().unwrap();
    chrono::DateTime::from_timestamp(secs, 0).unwrap().with_timezone(&tz).to_rfc3339()
}

/// `DateTime::with_timezone` into the named zone, then `DateTime::format`,
/// written out with `DelayedFormat::write_to`.
#[verifier::external_body]
fn zoned_text(secs: i64, zone: &str, pattern: &str) -> (text: Option<String>)
    requires
        representable(secs as int),
        zone_known(zone@),
    ensures
        optional_view(text) == text_in_zone(secs as int, zone@, pattern@),
{
    let tz: chrono_tz::Tz = zone.parse().unwrap();
    let moment = chrono::DateTime::from_timestamp(secs, 0).unwrap().with_timezone(&tz);
    let mut out = String::new();
    moment.format(pattern).write_to(&mut out).ok()?;
    Some(out)
}

/// A timezone that the database holds, known by its identifier.
pub struct ZonedIdentity {
    name: String,
}

impl View for ZonedIdentity {
    type V = Seq<char>;

    closed spec fn view(&self) -> Seq<char> {
        self.name@
    }
}

impl ZonedIdentity {
    #[verifier::type_invariant]
    spec fn registered(self) -> bool {
        zone_known(self.name@)
    }

    /// The zone's identifier.
    pub fn name(&self) -> (name: &str)
        ensures
            name@ == self@,
            zone_known(name@),
    {
        proof {
            use_type_invariant(self);
        }
        self.name.as_str()
    }

    /// The date and time `secs` seconds from the epoch as this zone's
    /// clocks show it, in RFC 3339 form.
    pub fn rfc3339(&self, secs: i64) -> (text: String)
        requires
            representable(secs as int),
        ensures
            text@ == rfc3339_in_zone(secs as int, self@),
    {
        proof {
            use_type_invariant(self);
        }
        zoned_rfc3339(secs, self.name.as_str())
    }

    /// The date and time `secs` seconds from the epoch as this zone's
    /// clocks show it, written after `pattern`; `None` where the pattern
    /// cannot be written.
    pub fn text(&self, secs: i64, pattern: &str) -> (text: Option<String>)
        requires
            representable(secs as int),
        ensures
            optional_view(text) == text_in_zone(secs as int, self@, pattern@),
    {
        proof {
            use_type_invariant(self);
        }
        zoned_text(secs, self.name.as_str(), pattern)
    }
}

/// Whether `names` lists the database from its first zone on without a gap.
pub open spec fn lists_database(names: Seq<Seq<char>>) -> bool {
    forall|i: int| 0 <= i < names.len() ==> zone_name_at(i) == Some(#[trigger] names[i])
}

pub struct TimezoneResolver {}

impl TimezoneResolver {
    /// Looks `name` up in the database. An unknown name fails; nothing is
    /// put in its place.
    pub fn resolve(name: &str) -> (r: Result<ZonedIdentity, TimeError>)
        ensures
            match r {
                Ok(zone) => zone_known(name@) && zone@ == name@,
                Err(e) => !zone_known(name@) && e@ == TimeFailure::InvalidTimezone(name@),
            },
    {
        if lookup(name) {
            Ok(ZonedIdentity { name: String::from_str(name) })
        } else {
            Err(TimeError::InvalidTimezone(String::from_str(name)))
        }
    }

    /// Every identifier of the database, in the database's own order, which
    /// is the same on every call.
    pub fn list_all() -> (names: Vec<String>)
        ensures
            lists_database(strings_view(names@)),
            zone_name_at(names.len() as int) is None || names.len() == usize::MAX,
    {
        let mut names: Vec<String> = Vec::new();
        let mut index: usize = 0;
        while index < usize::MAX
            invariant
                index == names.len(),
                lists_database(strings_view(names@)),
            ensures
                index == names.len(),
                lists_database(strings_view(names@)),
                zone_name_at(index as int) is None || index == usize::MAX,
            decreases usize::MAX - index,
        {
            match name_at(index) {
                Some(name) => {
                    let ghost before = names@;
                    names.push(name);
                    proof {
                        assert forall|i: int| 0 <= i < names@.len() implies zone_name_at(i)
                            == Some(#[trigger] strings_view(names@)[i]) by {
                            if i < before.len() {
                                assert(strings_view(before)[i] == before[i]@);
                            }
                        }
                    }
                    index += 1;
                },
                None => {
                    break ;
                },
            }
        }
        names
    }
}

} // verus!
