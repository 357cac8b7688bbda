//! The one report that each domain gets, and the line that shows it.

use vstd::prelude::*;
use crate::duration::{compose_readable_duration, readable_duration};
use crate::error::KnockKnockError;
use crate::record::RegistrationRecord;
use crate::tier::{span_tier, tier_of_span, DurationTier};
use crate::time::{TimeSpan, Timestamp};

verus! {

/// Switches the terminal to red.
pub const ANSI_COLOR_RED: &'static str = "\x1b[31m";

/// Switches the terminal to green.
pub const ANSI_COLOR_GREEN: &'static str = "\x1b[32m";

/// Switches the terminal to yellow.
pub const ANSI_COLOR_YELLOW: &'static str = "\x1b[33m";

/// Switches the terminal back to its own colour.
pub const ANSI_COLOR_RESET: &'static str = "\x1b[0m";

/// What stands in front of every status line.
pub const INDENTATION: &'static str = "    ";

/// The colours a status line can have.
#[derive(Debug, Clone, Copy, PartialEq, Eq, Structural)]
pub enum Color {
    Red,
    Yellow,
    Green,
}

impl Color {
    /// The escape sequence that switches the terminal to the colour.
    pub open spec fn code(self) -> Seq<char> {
        match self {
            Color::Red => ANSI_COLOR_RED@,
            Color::Yellow => ANSI_COLOR_YELLOW@,
            Color::Green => ANSI_COLOR_GREEN@,
        }
    }

    /// The escape sequence that switches the terminal to the colour.
    pub fn escape(&self) -> (code: &'static str)
        ensures
            code@ == self.code(),
    {
        match self {
            Color::Red => ANSI_COLOR_RED,
            Color::Yellow => ANSI_COLOR_YELLOW,
            Color::Green => ANSI_COLOR_GREEN,
        }
    }
}

/// The final word on one domain. Every domain of a batch gets exactly one.
#[derive(Debug, Clone, Copy, PartialEq, Eq, Structural)]
pub enum DomainReport {
    /// Registered, with so much time left until it expires; a negative
    /// span tells how long ago it expired.
    Expires { remaining: TimeSpan },
    /// Registered, but the response named no expiration date.
    ExpirationUnavailable,
    /// Not registered.
    NotRegistered,
    /// Every attempt failed; the error is that of the last one.
    LookupFailed { error: KnockKnockError },
}

/// The report on a domain whose query succeeded at the time `now`.
pub open spec fn reported(record: RegistrationRecord, now: Timestamp) -> DomainReport {
    if !record.is_registered {
        DomainReport::NotRegistered
    } else {
        match record.expiration {
            None => DomainReport::ExpirationUnavailable,
            Some(expiration) => DomainReport::Expires {
                remaining: TimeSpan { millis: (expiration.millis - now.millis) as i128 },
            },
        }
    }
}

/// The colour of a tier: red once expired or critical, yellow for a
/// warning, green else.
pub open spec fn color_of_tier(tier: DurationTier) -> Color {
    match tier {
        DurationTier::Expired => Color::Red,
        DurationTier::Critical => Color::Red,
        DurationTier::Warning => Color::Yellow,
        DurationTier::Normal => Color::Green,
    }
}

impl DomainReport {
    /// The tier of the report, where it tells of time left.
    pub open spec fn tier_of(self) -> Option<DurationTier> {
        match self {
            DomainReport::Expires { remaining } => Some(tier_of_span(remaining@)),
            _ => None,
        }
    }

    /// The colour of the report's line.
    pub open spec fn color_of(self) -> Color {
        match self {
            DomainReport::Expires { remaining } => color_of_tier(tier_of_span(remaining@)),
            DomainReport::ExpirationUnavailable => Color::Red,
            DomainReport::NotRegistered => Color::Green,
            DomainReport::LookupFailed { error } => Color::Red,
        }
    }

    /// The words of the report.
    pub open spec fn message_of(self, full: bool) -> Seq<char> {
        match self {
            DomainReport::Expires { remaining } => if remaining@ < 0 {
                "Domain name has expired "@ + readable_duration(remaining@, full) + " ago"@
            } else {
                "Domain name will expire in "@ + readable_duration(remaining@, full)
            },
            DomainReport::ExpirationUnavailable => "ERROR: Unable to obtain domain name expiration date"@,
            DomainReport::NotRegistered => "Domain name not registered"@,
            DomainReport::LookupFailed { error } => "ERROR: Unable to retrieve domain name info"@,
        }
    }

    /// The report's line as it is shown: indented, in its colour.
    pub open spec fn line_of(self, full: bool) -> Seq<char> {
        highlighted(INDENTATION@ + self.message_of(full), self.color_of().code())
    }

    /// The tier of the report, where it tells of time left.
    pub fn tier(&self) -> (tier: Option<DurationTier>)
        ensures
            tier == self.tier_of(),
    {
        match self {
            DomainReport::Expires { remaining } => Some(span_tier(*remaining)),
            _ => None,
        }
    }

    /// The colour of the report's line.
    pub fn color(&self) -> (color: Color)
        ensures
            color == self.color_of(),
    {
        match self {
            DomainReport::Expires { remaining } => tier_color(span_tier(*remaining)),
            DomainReport::ExpirationUnavailable => Color::Red,
            DomainReport::NotRegistered => Color::Green,
            DomainReport::LookupFailed { .. } => Color::Red,
        }
    }

    /// The words of the report; `show_full_time` chooses how the time left
    /// is told.
    pub fn message(&self, show_full_time: bool) -> (text: String)
        ensures
            text@ == self.message_of(show_full_time),
    {
        match self {
            DomainReport::Expires { remaining } => {
                let time = compose_readable_duration(*remaining, show_full_time);
                if remaining.is_negative() {
                    let mut text = String::from_str("Domain name has expired ");
                    text.append(time.as_str());
                    text.append(" ago");
                    text
                } else {
                    let mut text = String::from_str("Domain name will expire in ");
                    text.append(time.as_str());
                    text
                }
            },
            DomainReport::ExpirationUnavailable => String::from_str(
                "ERROR: Unable to obtain domain name expiration date",
            ),
            DomainReport::NotRegistered => String::from_str("Domain name not registered"),
            DomainReport::LookupFailed { .. } => String::from_str(
                "ERROR: Unable to retrieve domain name info",
            ),
        }
    }

    /// The report's line as it is shown: indented, in its colour.
    pub fn status_line(&self, show_full_time: bool) -> (line: String)
        ensures
            line@ == self.line_of(show_full_time),
    {
        let mut text = String::from_str(INDENTATION);
        let message = self.message(show_full_time);
        text.append(message.as_str());
        highlight_text(text.as_str(), self.color().escape())
    }
}

/// `text` between the escape sequence `color` and the one that resets the
/// terminal.
pub open spec fn highlighted(text: Seq<char>, color: Seq<char>) -> Seq<char> {
    color + text + ANSI_COLOR_RESET@
}

/// The header that stands above the status line of `domain_name`.
pub open spec fn header_of(domain_name: Seq<char>) -> Seq<char> {
    domain_name.push(':')
}

/// The line shown when the bootstrap data could not be had at all.
pub open spec fn connection_failure() -> Seq<char> {
    highlighted(INDENTATION@ + "ERROR: Unable to establish connection"@, ANSI_COLOR_RED@)
}

/// Wraps `text` in the escape sequence `color` and the one that resets the
/// terminal behind it.
pub fn highlight_text(text: &str, color: &str) -> (result: String)
    ensures
        result@ == highlighted(text@, color@),
{
    let mut result = String::from_str(color);
    result.append(text);
    result.append(ANSI_COLOR_RESET);
    result
}

/// The colour in which a tier is shown.
pub fn tier_color(tier: DurationTier) -> (color: Color)
    ensures
        color == color_of_tier(tier),
{
    match tier {
        DurationTier::Expired => Color::Red,
        DurationTier::Critical => Color::Red,
        DurationTier::Warning => Color::Yellow,
        DurationTier::Normal => Color::Green,
    }
}

/// The header that stands above the status line of `domain_name`: the
/// name and a colon.
pub fn domain_header(domain_name: &str) -> (header: String)
    ensures
        header@ == header_of(domain_name@),
{
    let mut header = String::from_str(domain_name);
    proof {
        reveal_strlit(":");
    }
    header.append(":");
    header
}

/// The line shown when the bootstrap data could not be had at all: no
/// domain can be looked up then, and the batch does not start.
pub fn connection_failure_line() -> (line: String)
    ensures
        line@ == connection_failure(),
{
    let mut text = String::from_str(INDENTATION);
    text.append("ERROR: Unable to establish connection");
    highlight_text(text.as_str(), ANSI_COLOR_RED)
}

/// Reads the report off the record of a successful query, taken at the
/// time `now`. Without an expiration date no time left is told; a domain
/// that is not registered is reported as such.
pub fn report_record(record: &RegistrationRecord, now: Timestamp) -> (report: DomainReport)
    ensures
        report == reported(*record, now),
{
    if !record.is_registered {
        DomainReport::NotRegistered
    } else {
        match record.expiration {
            None => DomainReport::ExpirationUnavailable,
            Some(expiration) => DomainReport::Expires {
                remaining: TimeSpan::between(now, expiration),
            },
        }
    }
}

/// What a record is reported as goes by the record alone: not registered
/// exactly when it says so, without a date exactly when it is registered
/// and names none, and else with the span from `now` to the date. A record
/// is never reported as a failed lookup.
pub proof fn record_reports_are_distinct(record: RegistrationRecord, now: Timestamp)
    ensures
        ({
            let report = reported(record, now);
            &&& report == DomainReport::NotRegistered <==> !record.is_registered
            &&& report == DomainReport::ExpirationUnavailable <==> record.is_registered
                && record.expiration is None
            &&& report is Expires <==> record.is_registered && record.expiration is Some
            &&& report is Expires ==> report->remaining@ == record.expiration.unwrap().millis
                - now.millis
            &&& !(report is LookupFailed)
        }),
{
}

/// A failed lookup is not worded as a domain that is not registered, nor
/// as one without a date, and it is shown in another colour than the
/// first.
pub proof fn failed_lookup_has_its_own_words(error: KnockKnockError, full: bool)
    ensures
        ({
            let failed = DomainReport::LookupFailed { error };
            let undated = DomainReport::ExpirationUnavailable;
            let unregistered = DomainReport::NotRegistered;
            &&& failed.message_of(full) != unregistered.message_of(full)
            &&& failed.message_of(full) != undated.message_of(full)
            &&& undated.message_of(full) != unregistered.message_of(full)
            &&& failed.color_of() != unregistered.color_of()
        }),
{
    reveal_strlit("ERROR: Unable to retrieve domain name info");
    reveal_strlit("ERROR: Unable to obtain domain name expiration date");
    reveal_strlit("Domain name not registered");
    let failed = "ERROR: Unable to retrieve domain name info"@;
    let undated = "ERROR: Unable to obtain domain name expiration date"@;
    let unregistered = "Domain name not registered"@;
    assert(failed[0] == 'E' && undated[0] == 'E' && unregistered[0] == 'D');
    assert(failed[17] == 'r' && undated[17] == 'o');
}

} // verus!
