//! A span of time in words: whole days, hours, minutes and seconds.

use vstd::prelude::*;
use crate::time::{whole_seconds, TimeSpan};
use crate::utils::{decimal, decimal_string, join, joined, pluralize, pluralized, texts};

verus! {

/// The units a span is told in, largest first. There is none above the
/// day: no months, no years.
#[derive(Debug, Clone, Copy, PartialEq, Eq, Structural)]
pub enum TimeUnit {
    Day,
    Hour,
    Minute,
    Second,
}

impl TimeUnit {
    /// The length of the unit in seconds.
    pub open spec fn seconds(self) -> nat {
        match self {
            TimeUnit::Day => 86400,
            TimeUnit::Hour => 3600,
            TimeUnit::Minute => 60,
            TimeUnit::Second => 1,
        }
    }

    /// The unit's name in the singular.
    pub open spec fn label(self) -> Seq<char> {
        match self {
            TimeUnit::Day => "day"@,
            TimeUnit::Hour => "hour"@,
            TimeUnit::Minute => "minute"@,
            TimeUnit::Second => "second"@,
        }
    }

    /// The place of the unit among the four: zero for the day.
    pub open spec fn position(self) -> nat {
        match self {
            TimeUnit::Day => 0,
            TimeUnit::Hour => 1,
            TimeUnit::Minute => 2,
            TimeUnit::Second => 3,
        }
    }

    /// The unit's name in the singular.
    pub fn name(&self) -> (name: &'static str)
        ensures
            name@ == self.label(),
    {
        match self {
            TimeUnit::Day => "day",
            TimeUnit::Hour => "hour",
            TimeUnit::Minute => "minute",
            TimeUnit::Second => "second",
        }
    }

    /// The length of the unit in seconds.
    pub fn length(&self) -> (length: u128)
        ensures
            length == self.seconds(),
    {
        match self {
            TimeUnit::Day => 86400,
            TimeUnit::Hour => 3600,
            TimeUnit::Minute => 60,
            TimeUnit::Second => 1,
        }
    }
}

/// So many of one unit.
#[derive(Debug, Clone, Copy, PartialEq, Eq, Structural)]
pub struct Part {
    pub quantity: u128,
    pub unit: TimeUnit,
}

impl View for Part {
    type V = (nat, TimeUnit);

    open spec fn view(&self) -> (nat, TimeUnit) {
        (self.quantity as nat, self.unit)
    }
}

/// The views of a list of parts.
pub open spec fn part_views(parts: Seq<Part>) -> Seq<(nat, TimeUnit)> {
    Seq::new(parts.len(), |i: int| parts[i]@)
}

/// How many of `unit` a span of `total` seconds holds once the larger
/// units have been taken out of it.
pub open spec fn unit_quantity(total: nat, unit: TimeUnit) -> nat {
    match unit {
        TimeUnit::Day => total / 86400,
        TimeUnit::Hour => (total % 86400) / 3600,
        TimeUnit::Minute => (total % 3600) / 60,
        TimeUnit::Second => total % 60,
    }
}

/// The part that `unit` has in a span of `total` seconds: none where its
/// quantity is zero.
pub open spec fn part_of(total: nat, unit: TimeUnit) -> Seq<(nat, TimeUnit)> {
    if unit_quantity(total, unit) > 0 {
        seq![(unit_quantity(total, unit), unit)]
    } else {
        Seq::empty()
    }
}

/// A span of `total` seconds in parts: the units whose quantity is not
/// zero, largest first.
pub open spec fn breakdown_of(total: nat) -> Seq<(nat, TimeUnit)> {
    part_of(total, TimeUnit::Day) + part_of(total, TimeUnit::Hour) + part_of(
        total,
        TimeUnit::Minute,
    ) + part_of(total, TimeUnit::Second)
}

/// The seconds that a list of parts adds up to.
pub open spec fn seconds_in(parts: Seq<(nat, TimeUnit)>) -> nat
    decreases parts.len(),
{
    if parts.len() == 0 {
        0
    } else {
        seconds_in(parts.drop_last()) + parts.last().0 * parts.last().1.seconds()
    }
}

/// One part in words: the quantity, a space, and the unit's name in the
/// singular or the plural.
pub open spec fn part_text(part: (nat, TimeUnit)) -> Seq<char> {
    decimal(part.0) + seq![' '] + pluralized(part.1.label(), part.0 as int)
}

/// The parts in words, one text for each.
pub open spec fn part_texts(parts: Seq<(nat, TimeUnit)>) -> Seq<Seq<char>> {
    Seq::new(parts.len(), |i: int| part_text(parts[i]))
}

/// A span of `total` seconds in words. In full, every part, joined by a
/// comma and a space; else the largest part alone. A span of no whole
/// second has no part, and its text is empty.
pub open spec fn readable(total: nat, full: bool) -> Seq<char> {
    let parts = breakdown_of(total);
    if full {
        joined(part_texts(parts), ", "@)
    } else if parts.len() > 0 {
        part_text(parts[0])
    } else {
        Seq::empty()
    }
}

/// A signed span of `millis` milliseconds in words: the whole seconds of
/// its magnitude, told as `readable` does.
pub open spec fn readable_duration(millis: int, full: bool) -> Seq<char> {
    readable(whole_seconds(millis), full)
}

/// Appends so many of `unit` to `parts`, unless the quantity is zero.
fn push_part(parts: &mut Vec<Part>, quantity: u128, unit: TimeUnit)
    ensures
        part_views(final(parts)@) == part_views(old(parts)@) + (if quantity > 0 {
            seq![(quantity as nat, unit)]
        } else {
            Seq::empty()
        }),
{
    if quantity > 0 {
        parts.push(Part { quantity, unit });
        assert(part_views(parts@) =~= part_views(old(parts)@) + seq![(quantity as nat, unit)]);
    } else {
        assert(part_views(parts@) =~= part_views(old(parts)@) + Seq::empty());
    }
}

/// Splits a span of `total_seconds` into whole days, then the hours left,
/// then the minutes left, then the seconds left, and keeps the units whose
/// quantity is not zero.
pub fn breakdown(total_seconds: u128) -> (parts: Vec<Part>)
    ensures
        part_views(parts@) == breakdown_of(total_seconds as nat),
{
    let days: u128 = total_seconds / 86400;
    let after_days: u128 = total_seconds - days * 86400;
    let hours: u128 = after_days / 3600;
    let after_hours: u128 = after_days - hours * 3600;
    let minutes: u128 = after_hours / 60;
    let seconds: u128 = after_hours - minutes * 60;
    proof {
        lemma_running_remainder(total_seconds as nat);
    }
    let mut parts: Vec<Part> = Vec::new();
    assert(part_views(parts@) =~= Seq::empty());
    push_part(&mut parts, days, TimeUnit::Day);
    push_part(&mut parts, hours, TimeUnit::Hour);
    push_part(&mut parts, minutes, TimeUnit::Minute);
    push_part(&mut parts, seconds, TimeUnit::Second);
    assert(part_views(parts@) =~= breakdown_of(total_seconds as nat));
    parts
}

/// Taking each unit out of what the larger ones left gives the same
/// quantities as the remainders of the whole span.
proof fn lemma_running_remainder(total: nat)
    ensures
        total - (total / 86400) * 86400 == total % 86400,
        (total % 86400) - ((total % 86400) / 3600) * 3600 == total % 3600,
        (total % 3600) - ((total % 3600) / 60) * 60 == total % 60,
{
}

/// Tells one part in words, such as "1 day" or "3 hours".
pub fn part_string(part: &Part) -> (text: String)
    ensures
        text@ == part_text(part@),
{
    let mut text = decimal_string(part.quantity);
    proof {
        reveal_strlit(" ");
    }
    text.append(" ");
    // Beyond the range of a count, a quantity is as plural as the largest.
    let count: i64 = if part.quantity > i64::MAX as u128 {
        i64::MAX
    } else {
        part.quantity as i64
    };
    let name = pluralize(part.unit.name(), count);
    text.append(name.as_str());
    text
}

/// Tells the magnitude of `duration` in words: its whole seconds in days,
/// hours, minutes and seconds. With `show_full_time` every unit that is not
/// zero appears, joined by ", "; without it the largest such unit alone.
pub fn compose_readable_duration(duration: TimeSpan, show_full_time: bool) -> (text: String)
    ensures
        text@ == readable_duration(duration@, show_full_time),
{
    let parts = breakdown(duration.whole_seconds());
    if !show_full_time {
        if parts.len() > 0 {
            assert(part_views(parts@)[0] == parts@[0]@);
            part_string(&parts[0])
        } else {
            String::new()
        }
    } else {
        let mut words: Vec<String> = Vec::new();
        let mut i: usize = 0;
        while i < parts.len()
            invariant
                i <= parts.len(),
                words.len() == i,
                forall|k: int| 0 <= k < i ==> (#[trigger] words@[k])@ == part_text(parts@[k]@),
            decreases parts.len() - i,
        {
            let word = part_string(&parts[i]);
            words.push(word);
            i = i + 1;
        }
        assert(texts(words@) =~= part_texts(part_views(parts@)));
        join(&words, ", ")
    }
}

/// The seconds of a list of parts with the part of one more unit behind it.
proof fn lemma_seconds_in_with(parts: Seq<(nat, TimeUnit)>, total: nat, unit: TimeUnit)
    ensures
        seconds_in(parts + part_of(total, unit)) == seconds_in(parts) + unit_quantity(total, unit)
            * unit.seconds(),
{
    if unit_quantity(total, unit) > 0 {
        assert((parts + part_of(total, unit)).drop_last() =~= parts);
    }
}

/// The first of one or more joined items stands at the front of the text.
proof fn lemma_joined_starts_with_first(items: Seq<Seq<char>>, separator: Seq<char>)
    requires
        items.len() >= 1,
    ensures
        items[0].is_prefix_of(joined(items, separator)),
    decreases items.len(),
{
    if items.len() > 1 {
        lemma_joined_starts_with_first(items.drop_last(), separator);
        let front = joined(items.drop_last(), separator);
        assert(joined(items, separator) =~= front + (separator + items.last()));
    }
}

/// The parts of a span add up to the span: no second is lost or counted
/// twice.
pub proof fn parts_sum_to_total(total: nat)
    ensures
        seconds_in(breakdown_of(total)) == total,
{
    let days = part_of(total, TimeUnit::Day);
    let hours = part_of(total, TimeUnit::Hour);
    let minutes = part_of(total, TimeUnit::Minute);
    let seconds = part_of(total, TimeUnit::Second);
    assert(seconds_in(days) == (total / 86400) * 86400) by {
        assert(Seq::<(nat, TimeUnit)>::empty() + days =~= days);
        lemma_seconds_in_with(Seq::empty(), total, TimeUnit::Day);
    }
    assert(seconds_in(days + hours) == seconds_in(days) + ((total % 86400) / 3600) * 3600) by {
        lemma_seconds_in_with(days, total, TimeUnit::Hour);
    }
    assert(seconds_in(days + hours + minutes) == seconds_in(days + hours) + ((total % 3600) / 60)
        * 60) by {
        lemma_seconds_in_with(days + hours, total, TimeUnit::Minute);
    }
    assert(seconds_in(days + hours + minutes + seconds) == seconds_in(days + hours + minutes)
        + total % 60) by {
        lemma_seconds_in_with(days + hours + minutes, total, TimeUnit::Second);
    }
    lemma_running_remainder(total);
}

/// The parts of a span are in canonical form: no quantity is zero, the
/// units come largest first and none comes twice, and below the day every
/// quantity stays under one of the next larger unit.
pub proof fn parts_are_canonical(total: nat)
    ensures
        breakdown_of(total).len() <= 4,
        forall|k: int|
            0 <= k < breakdown_of(total).len() ==> {
                let part = #[trigger] breakdown_of(total)[k];
                &&& part.0 == unit_quantity(total, part.1)
                &&& part.0 > 0
                &&& part.1 == TimeUnit::Hour ==> part.0 < 24
                &&& part.1 == TimeUnit::Minute ==> part.0 < 60
                &&& part.1 == TimeUnit::Second ==> part.0 < 60
            },
        forall|j: int, k: int|
            0 <= j < k < breakdown_of(total).len() ==> (#[trigger] breakdown_of(total)[j]).1.position()
                < (#[trigger] breakdown_of(total)[k]).1.position(),
{
}

/// A span of at least one second, told without the full time, is a single
/// part: the largest unit whose quantity is not zero.
pub proof fn compact_is_largest_part(total: nat)
    requires
        total >= 1,
    ensures
        breakdown_of(total).len() >= 1,
        readable(total, false) == part_text(breakdown_of(total)[0]),
        breakdown_of(total)[0].0 == unit_quantity(total, breakdown_of(total)[0].1),
        breakdown_of(total)[0].0 > 0,
        forall|unit: TimeUnit|
            unit.position() < breakdown_of(total)[0].1.position() ==> #[trigger] unit_quantity(
                total,
                unit,
            ) == 0,
{
}

/// A span of less than one second has no part, and its text is empty with
/// or without the full time.
pub proof fn no_whole_second_has_no_words(full: bool)
    ensures
        breakdown_of(0).len() == 0,
        readable(0, full) == Seq::<char>::empty(),
{
}

/// The full time tells every part of the span, and it starts with what the
/// largest part alone would tell.
pub proof fn full_extends_compact(total: nat)
    ensures
        readable(total, true) == joined(part_texts(breakdown_of(total)), ", "@),
        readable(total, false).is_prefix_of(readable(total, true)),
{
    if breakdown_of(total).len() >= 1 {
        lemma_joined_starts_with_first(part_texts(breakdown_of(total)), ", "@);
    }
}

/// A signed span is told by its magnitude alone, whichever way it points,
/// and by no more of it than its whole seconds: the parts told add up to
/// them, and what is left of a second is dropped.
pub proof fn duration_is_told_by_whole_seconds(millis: int, full: bool)
    ensures
        readable_duration(millis, full) == readable(whole_seconds(millis), full),
        readable_duration(-millis, full) == readable_duration(millis, full),
        millis >= 0 ==> whole_seconds(millis) == millis / 1000,
        millis < 0 ==> whole_seconds(millis) == (-millis) / 1000,
        seconds_in(breakdown_of(whole_seconds(millis))) == whole_seconds(millis),
{
    parts_sum_to_total(whole_seconds(millis));
}

} // verus!
