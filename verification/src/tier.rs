//! Severity tiers of the time left until a registration expires.

use vstd::prelude::*;
use crate::time::TimeSpan;

verus! {

/// Seconds in four weeks: up to here the time left calls for a warning.
pub const EXPIRATION_WARNING: i64 = 2419200;

/// Seconds in one week: up to here the time left is critical.
pub const EXPIRATION_CRITICAL: i64 = 604800;

/// How urgent the time left until expiration is.
#[derive(Debug, Clone, Copy, PartialEq, Eq, Structural)]
pub enum DurationTier {
    /// The expiration date has passed.
    Expired,
    /// At most one week is left.
    Critical,
    /// More than one week and at most four weeks are left.
    Warning,
    /// More than four weeks are left.
    Normal,
}

impl DurationTier {
    /// The rank of the tier: the higher, the more urgent.
    pub open spec fn severity(self) -> nat {
        match self {
            DurationTier::Expired => 3,
            DurationTier::Critical => 2,
            DurationTier::Warning => 1,
            DurationTier::Normal => 0,
        }
    }

    /// The rank of the tier: the higher, the more urgent.
    pub fn rank(&self) -> (rank: u8)
        ensures
            rank == self.severity(),
    {
        match self {
            DurationTier::Expired => 3,
            DurationTier::Critical => 2,
            DurationTier::Warning => 1,
            DurationTier::Normal => 0,
        }
    }
}

/// The tier of a signed number of seconds until expiration. Both
/// thresholds belong to the more urgent tier.
pub open spec fn tier_of_seconds(seconds: int) -> DurationTier {
    if seconds < 0 {
        DurationTier::Expired
    } else if seconds <= EXPIRATION_CRITICAL {
        DurationTier::Critical
    } else if seconds <= EXPIRATION_WARNING {
        DurationTier::Warning
    } else {
        DurationTier::Normal
    }
}

/// The tier of a signed span in milliseconds: expired as soon as the span
/// is negative, else the tier of its whole seconds.
pub open spec fn tier_of_span(millis: int) -> DurationTier {
    if millis < 0 {
        DurationTier::Expired
    } else {
        tier_of_seconds(millis / 1000)
    }
}

/// The tier of `seconds` seconds until expiration.
pub fn tier(seconds: i64) -> (result: DurationTier)
    ensures
        result == tier_of_seconds(seconds as int),
{
    if seconds < 0 {
        DurationTier::Expired
    } else if seconds <= EXPIRATION_CRITICAL {
        DurationTier::Critical
    } else if seconds <= EXPIRATION_WARNING {
        DurationTier::Warning
    } else {
        DurationTier::Normal
    }
}

/// The tier of the span `remaining` until expiration.
pub fn span_tier(remaining: TimeSpan) -> (result: DurationTier)
    ensures
        result == tier_of_span(remaining@),
{
    if remaining.is_negative() {
        DurationTier::Expired
    } else {
        let seconds: u128 = remaining.whole_seconds();
        // Seconds beyond the range of the count are as far off as its largest.
        let count: i64 = if seconds > i64::MAX as u128 {
            i64::MAX
        } else {
            seconds as i64
        };
        tier(count)
    }
}

/// As the seconds left grow from zero on, the tier never gets more urgent.
pub proof fn tier_is_monotone(earlier: int, later: int)
    requires
        0 <= earlier <= later,
    ensures
        tier_of_seconds(earlier).severity() >= tier_of_seconds(later).severity(),
{
}

/// Each tier has its range of seconds, and each threshold is the last
/// second of the more urgent tier.
pub proof fn tier_ranges(seconds: int)
    ensures
        tier_of_seconds(seconds) == DurationTier::Expired <==> seconds < 0,
        tier_of_seconds(seconds) == DurationTier::Critical <==> 0 <= seconds <= 604800,
        tier_of_seconds(seconds) == DurationTier::Warning <==> 604800 < seconds <= 2419200,
        tier_of_seconds(seconds) == DurationTier::Normal <==> 2419200 < seconds,
{
}

/// A span that has not run out is never more urgent than a shorter one,
/// and a span that has run out is more urgent than any that has not.
pub proof fn span_tier_is_monotone(shorter: int, longer: int)
    requires
        shorter <= longer,
    ensures
        tier_of_span(shorter).severity() >= tier_of_span(longer).severity(),
{
    if 0 <= shorter {
        tier_is_monotone(shorter / 1000, longer / 1000);
    }
}

/// A span of whole seconds that has not run out has the tier of its seconds.
pub proof fn span_tier_of_whole_seconds(seconds: int)
    requires
        0 <= seconds,
    ensures
        tier_of_span(seconds * 1000) == tier_of_seconds(seconds),
{
}

} // verus!
