//! Breaking a span of seconds into weeks, days, hours, minutes and seconds,
//! and rendering the breakdown for display.

use vstd::prelude::*;
use crate::text::{
    contains, decimal, is_decimal_digit, lemma_concat_lacks, lemma_contains_in_middle,
    lemma_contains_needs_first, lemma_decimal_lacks, occurs_at, push_decimal,
};

verus! {

pub const SECONDS_PER_MINUTE: u64 = 60;

pub const SECONDS_PER_HOUR: u64 = 3600;

pub const SECONDS_PER_DAY: u64 = 86400;

pub const SECONDS_PER_WEEK: u64 = 604800;

/// A span of time split into units. Every unit but `weeks` stays below the
/// size of the next larger one when the breakdown comes from
/// [`DurationDecomposer::decompose`].
#[derive(Clone, Copy, Debug, PartialEq, Eq, Structural)]
pub struct DurationBreakdown {
    pub weeks: u64,
    pub days: u64,
    pub hours: u64,
    pub minutes: u64,
    pub seconds: u64,
}

/// What one of the four larger units contributes to the rendering: its
/// count and label when the count is positive, nothing otherwise.
pub open spec fn unit_segment(count: u64, label: Seq<char>) -> Seq<char> {
    if count > 0 {
        decimal(count as nat) + label
    } else {
        Seq::empty()
    }
}

impl DurationBreakdown {
    /// The span in seconds that the breakdown adds up to.
    pub open spec fn total_seconds(self) -> int {
        self.weeks * 604800 + self.days * 86400 + self.hours * 3600 + self.minutes * 60
            + self.seconds
    }

    /// Each unit is smaller than the next larger unit.
    pub open spec fn normalized(self) -> bool {
        &&& self.days < 7
        &&& self.hours < 24
        &&& self.minutes < 60
        &&& self.seconds < 60
    }

    /// The display form: the positive units among weeks, days, hours and
    /// minutes in that order, then the seconds, which always show.
    pub open spec fn rendered(self) -> Seq<char> {
        unit_segment(self.weeks, " Weeks "@) + unit_segment(self.days, " Days "@) + unit_segment(
            self.hours,
            " Hours "@,
        ) + unit_segment(self.minutes, " Minutes "@) + decimal(self.seconds as nat) + " Seconds"@
    }

    /// Renders the breakdown, e.g. `4 Weeks 1 Days 11 Hours 29 Minutes 35 Seconds`.
    pub fn render(&self) -> (out: String)
        ensures
            out@ == self.rendered(),
    {
        let mut out = String::new();
        if self.weeks > 0 {
            push_decimal(&mut out, self.weeks);
            out.append(" Weeks ");
        }
        if self.days > 0 {
            push_decimal(&mut out, self.days);
            out.append(" Days ");
        }
        if self.hours > 0 {
            push_decimal(&mut out, self.hours);
            out.append(" Hours ");
        }
        if self.minutes > 0 {
            push_decimal(&mut out, self.minutes);
            out.append(" Minutes ");
        }
        push_decimal(&mut out, self.seconds);
        out.append(" Seconds");
        out
    }
}

/// The breakdown of `total` seconds: divide by each unit from the largest
/// down and carry the remainder.
pub open spec fn breakdown_of(total: u64) -> DurationBreakdown {
    let after_weeks = total % 604800;
    let after_days = after_weeks % 86400;
    let after_hours = after_days % 3600;
    DurationBreakdown {
        weeks: (total / 604800) as u64,
        days: (after_weeks / 86400) as u64,
        hours: (after_days / 3600) as u64,
        minutes: (after_hours / 60) as u64,
        seconds: (after_hours % 60) as u64,
    }
}

pub struct DurationDecomposer {}

impl DurationDecomposer {
    /// Splits `total_seconds` into units.
    pub fn decompose(total_seconds: u64) -> (b: DurationBreakdown)
        ensures
            b == breakdown_of(total_seconds),
            b.total_seconds() == total_seconds,
            b.normalized(),
    {
        let mut rest: u64 = total_seconds;
        let weeks: u64 = rest / SECONDS_PER_WEEK;
        rest = rest % SECONDS_PER_WEEK;
        let days: u64 = rest / SECONDS_PER_DAY;
        rest = rest % SECONDS_PER_DAY;
        let hours: u64 = rest / SECONDS_PER_HOUR;
        rest = rest % SECONDS_PER_HOUR;
        let minutes: u64 = rest / SECONDS_PER_MINUTE;
        rest = rest % SECONDS_PER_MINUTE;
        DurationBreakdown { weeks, days, hours, minutes, seconds: rest }
    }

    /// The display form of a span of `total_seconds`.
    pub fn describe(total_seconds: u64) -> (out: String)
        ensures
            out@ == breakdown_of(total_seconds).rendered(),
    {
        Self::decompose(total_seconds).render()
    }
}

/// A breakdown made by division adds up to the span it was made from, and
/// each of its units stays below the next larger one.
pub proof fn lemma_breakdown_adds_up(total: u64)
    ensures
        breakdown_of(total).total_seconds() == total,
        breakdown_of(total).normalized(),
{
}

/// Between two parts that lack the first character of `word`, a unit's
/// segment makes `word` occur exactly when the unit's count is positive.
proof fn lemma_segment_shows(
    before: Seq<char>,
    count: u64,
    label: Seq<char>,
    after: Seq<char>,
    word: Seq<char>,
)
    requires
        word.len() > 0,
        contains(label, word),
        !is_decimal_digit(word[0]),
        !before.contains(word[0]),
        !after.contains(word[0]),
    ensures
        contains(before + unit_segment(count, label) + after, word) <==> count > 0,
{
    let whole = before + unit_segment(count, label) + after;
    if count > 0 {
        let numeral = decimal(count as nat);
        assert(whole =~= (before + numeral) + label + after);
        lemma_contains_in_middle(before + numeral, label, after, word);
    } else {
        assert(whole =~= before + after);
        lemma_concat_lacks(before, after, word[0]);
        if contains(whole, word) {
            lemma_contains_needs_first(whole, word);
        }
    }
}

/// A unit's segment lacks every character that is neither a digit nor in
/// the unit's label.
proof fn lemma_segment_lacks(count: u64, label: Seq<char>, c: char)
    requires
        !is_decimal_digit(c),
        !label.contains(c),
    ensures
        !unit_segment(count, label).contains(c),
{
    if count > 0 {
        lemma_decimal_lacks(count as nat, c);
        lemma_concat_lacks(decimal(count as nat), label, c);
    }
}

/// Whether `c` is the capital that begins one of the four larger units' names.
spec fn is_unit_initial(c: char) -> bool {
    c == 'W' || c == 'D' || c == 'H' || c == 'M'
}

proof fn lemma_weeks_label(c: char)
    ensures
        "Weeks"@.len() > 0,
        "Weeks"@[0] == 'W',
        contains(" Weeks "@, "Weeks"@),
        is_unit_initial(c) && c != 'W' ==> !" Weeks "@.contains(c),
{
    reveal_strlit(" Weeks ");
    reveal_strlit("Weeks");
    assert(" Weeks "@.subrange(1, 6) =~= "Weeks"@);
    assert(occurs_at(" Weeks "@, "Weeks"@, 1));
}

proof fn lemma_days_label(c: char)
    ensures
        "Days"@.len() > 0,
        "Days"@[0] == 'D',
        contains(" Days "@, "Days"@),
        is_unit_initial(c) && c != 'D' ==> !" Days "@.contains(c),
{
    reveal_strlit(" Days ");
    reveal_strlit("Days");
    assert(" Days "@.subrange(1, 5) =~= "Days"@);
    assert(occurs_at(" Days "@, "Days"@, 1));
}

proof fn lemma_hours_label(c: char)
    ensures
        "Hours"@.len() > 0,
        "Hours"@[0] == 'H',
        contains(" Hours "@, "Hours"@),
        is_unit_initial(c) && c != 'H' ==> !" Hours "@.contains(c),
{
    reveal_strlit(" Hours ");
    reveal_strlit("Hours");
    assert(" Hours "@.subrange(1, 6) =~= "Hours"@);
    assert(occurs_at(" Hours "@, "Hours"@, 1));
}

proof fn lemma_minutes_label(c: char)
    ensures
        "Minutes"@.len() > 0,
        "Minutes"@[0] == 'M',
        contains(" Minutes "@, "Minutes"@),
        is_unit_initial(c) && c != 'M' ==> !" Minutes "@.contains(c),
{
    reveal_strlit(" Minutes ");
    reveal_strlit("Minutes");
    assert(" Minutes "@.subrange(1, 8) =~= "Minutes"@);
    assert(occurs_at(" Minutes "@, "Minutes"@, 1));
}

proof fn lemma_seconds_label(c: char)
    ensures
        contains(" Seconds"@, "Seconds"@),
        is_unit_initial(c) ==> !" Seconds"@.contains(c),
{
    reveal_strlit(" Seconds");
    reveal_strlit("Seconds");
    assert(" Seconds"@.subrange(1, 8) =~= "Seconds"@);
    assert(occurs_at(" Seconds"@, "Seconds"@, 1));
}

proof fn lemma_initials_are_letters()
    ensures
        forall|c: char| is_unit_initial(c) ==> !is_decimal_digit(c),
{
}

/// The tail of the display form, numeral and label of the seconds, holds
/// no initial of a larger unit.
proof fn lemma_seconds_tail_lacks(seconds: u64, c: char)
    requires
        is_unit_initial(c),
    ensures
        !(decimal(seconds as nat) + " Seconds"@).contains(c),
{
    lemma_initials_are_letters();
    lemma_seconds_label(c);
    lemma_decimal_lacks(seconds as nat, c);
    lemma_concat_lacks(decimal(seconds as nat), " Seconds"@, c);
}

proof fn lemma_weeks_named(b: DurationBreakdown)
    ensures
        contains(b.rendered(), "Weeks"@) <==> b.weeks > 0,
{
    lemma_initials_are_letters();
    lemma_weeks_label('W');
    lemma_days_label('W');
    lemma_hours_label('W');
    lemma_minutes_label('W');
    let weeks = unit_segment(b.weeks, " Weeks "@);
    let days = unit_segment(b.days, " Days "@);
    let hours = unit_segment(b.hours, " Hours "@);
    let minutes = unit_segment(b.minutes, " Minutes "@);
    let seconds = decimal(b.seconds as nat) + " Seconds"@;
    let empty = Seq::<char>::empty();
    let after = days + hours + minutes + seconds;
    lemma_segment_lacks(b.days, " Days "@, 'W');
    lemma_segment_lacks(b.hours, " Hours "@, 'W');
    lemma_segment_lacks(b.minutes, " Minutes "@, 'W');
    lemma_seconds_tail_lacks(b.seconds, 'W');
    lemma_concat_lacks(days, hours, 'W');
    lemma_concat_lacks(days + hours, minutes, 'W');
    lemma_concat_lacks(days + hours + minutes, seconds, 'W');
    lemma_segment_shows(empty, b.weeks, " Weeks "@, after, "Weeks"@);
    assert(b.rendered() =~= empty + weeks + after);
}

proof fn lemma_days_named(b: DurationBreakdown)
    ensures
        contains(b.rendered(), "Days"@) <==> b.days > 0,
{
    lemma_initials_are_letters();
    lemma_weeks_label('D');
    lemma_days_label('D');
    lemma_hours_label('D');
    lemma_minutes_label('D');
    let weeks = unit_segment(b.weeks, " Weeks "@);
    let days = unit_segment(b.days, " Days "@);
    let hours = unit_segment(b.hours, " Hours "@);
    let minutes = unit_segment(b.minutes, " Minutes "@);
    let seconds = decimal(b.seconds as nat) + " Seconds"@;
    let after = hours + minutes + seconds;
    lemma_segment_lacks(b.weeks, " Weeks "@, 'D');
    lemma_segment_lacks(b.hours, " Hours "@, 'D');
    lemma_segment_lacks(b.minutes, " Minutes "@, 'D');
    lemma_seconds_tail_lacks(b.seconds, 'D');
    lemma_concat_lacks(hours, minutes, 'D');
    lemma_concat_lacks(hours + minutes, seconds, 'D');
    lemma_segment_shows(weeks, b.days, " Days "@, after, "Days"@);
    assert(b.rendered() =~= weeks + days + after);
}

proof fn lemma_hours_named(b: DurationBreakdown)
    ensures
        contains(b.rendered(), "Hours"@) <==> b.hours > 0,
{
    lemma_initials_are_letters();
    lemma_weeks_label('H');
    lemma_days_label('H');
    lemma_hours_label('H');
    lemma_minutes_label('H');
    let weeks = unit_segment(b.weeks, " Weeks "@);
    let days = unit_segment(b.days, " Days "@);
    let hours = unit_segment(b.hours, " Hours "@);
    let minutes = unit_segment(b.minutes, " Minutes "@);
    let seconds = decimal(b.seconds as nat) + " Seconds"@;
    let before = weeks + days;
    let after = minutes + seconds;
    lemma_segment_lacks(b.weeks, " Weeks "@, 'H');
    lemma_segment_lacks(b.days, " Days "@, 'H');
    lemma_segment_lacks(b.minutes, " Minutes "@, 'H');
    lemma_seconds_tail_lacks(b.seconds, 'H');
    lemma_concat_lacks(weeks, days, 'H');
    lemma_concat_lacks(minutes, seconds, 'H');
    lemma_segment_shows(before, b.hours, " Hours "@, after, "Hours"@);
    assert(b.rendered() =~= before + hours + after);
}

proof fn lemma_minutes_named(b: DurationBreakdown)
    ensures
        contains(b.rendered(), "Minutes"@) <==> b.minutes > 0,
{
    lemma_initials_are_letters();
    lemma_weeks_label('M');
    lemma_days_label('M');
    lemma_hours_label('M');
    lemma_minutes_label('M');
    let weeks = unit_segment(b.weeks, " Weeks "@);
    let days = unit_segment(b.days, " Days "@);
    let hours = unit_segment(b.hours, " Hours "@);
    let minutes = unit_segment(b.minutes, " Minutes "@);
    let seconds = decimal(b.seconds as nat) + " Seconds"@;
    let before = weeks + days + hours;
    lemma_segment_lacks(b.weeks, " Weeks "@, 'M');
    lemma_segment_lacks(b.days, " Days "@, 'M');
    lemma_segment_lacks(b.hours, " Hours "@, 'M');
    lemma_seconds_tail_lacks(b.seconds, 'M');
    lemma_concat_lacks(weeks, days, 'M');
    lemma_concat_lacks(weeks + days, hours, 'M');
    lemma_segment_shows(before, b.minutes, " Minutes "@, seconds, "Minutes"@);
    assert(b.rendered() =~= before + minutes + seconds);
}

proof fn lemma_seconds_named(b: DurationBreakdown)
    ensures
        contains(b.rendered(), "Seconds"@),
{
    lemma_seconds_label('W');
    let weeks = unit_segment(b.weeks, " Weeks "@);
    let days = unit_segment(b.days, " Days "@);
    let hours = unit_segment(b.hours, " Hours "@);
    let minutes = unit_segment(b.minutes, " Minutes "@);
    let before = weeks + days + hours + minutes + decimal(b.seconds as nat);
    let empty = Seq::<char>::empty();
    lemma_contains_in_middle(before, " Seconds"@, empty, "Seconds"@);
    assert(b.rendered() =~= before + " Seconds"@ + empty);
}

/// Each of weeks, days, hours and minutes is named in the display form
/// exactly when its count is positive; the seconds are always named.
pub proof fn lemma_unit_named_iff_positive(b: DurationBreakdown)
    ensures
        contains(b.rendered(), "Weeks"@) <==> b.weeks > 0,
        contains(b.rendered(), "Days"@) <==> b.days > 0,
        contains(b.rendered(), "Hours"@) <==> b.hours > 0,
        contains(b.rendered(), "Minutes"@) <==> b.minutes > 0,
        contains(b.rendered(), "Seconds"@),
{
    lemma_weeks_named(b);
    lemma_days_named(b);
    lemma_hours_named(b);
    lemma_minutes_named(b);
    lemma_seconds_named(b);
}

} // verus!
