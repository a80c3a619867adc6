//! Days and instants as plain numbers, and their written forms.

use chrono::TimeZone;
use crate::text::opt_view;
use std::fmt::Write;
use vstd::prelude::*;

verus! {

/// A calendar day in UTC, counted from 1970-01-01, which is day 0.
#[derive(Debug, Clone, Copy, PartialEq, Eq, Structural)]
pub struct Day {
    pub days: i32,
}

/// An instant: whole seconds since 1970-01-01 00:00:00 UTC, and the
/// nanoseconds past that second.
#[derive(Debug, Clone, Copy, PartialEq, Eq, Structural)]
pub struct Timestamp {
    pub secs: i64,
    pub nanos: u32,
}

/// An instant together with the name of the time zone it is shown in.
#[derive(Debug, Clone, PartialEq, Eq)]
pub struct ZonedTime {
    pub at: Timestamp,
    pub zone: String,
}

/// Whether an instant is the first of the day with the given number.
pub open spec fn starts_day(instant: Timestamp, days: int) -> bool {
    instant.secs == days * 86_400 && instant.nanos == 0
}

/// The first instant of the day with the given number.
pub open spec fn day_start(days: int) -> Timestamp {
    Timestamp { secs: (days * 86_400) as i64, nanos: 0 }
}

/// What `chrono` writes for an instant in UTC under a `strftime` pattern;
/// `None` where it has no date for the instant or cannot apply the pattern.
pub uninterp spec fn utc_text(secs: i64, nanos: u32, pattern: Seq<char>) -> Option<Seq<char>>;

/// What `chrono` writes by default for an instant in a time zone of
/// `chrono_tz`; `None` where the zone's name is unknown or there is no date
/// for the instant.
pub uninterp spec fn zoned_text(secs: i64, nanos: u32, zone: Seq<char>) -> Option<Seq<char>>;

/// `chrono::DateTime::format` on the instant that
/// `DateTime::from_timestamp` makes of the two numbers. Trusted: the text
/// depends on the numbers and the pattern alone. It is `None` where
/// `from_timestamp` returns `None` or the pattern is refused.
#[verifier::external_body]
fn format_utc(secs: i64, nanos: u32, pattern: &str) -> (text: Option<String>)
    ensures
        opt_view(text) == utc_text(secs, nanos, pattern@),
{
    let moment = chrono::DateTime::from_timestamp(secs, nanos)?;
    let mut text = String::new();
    match write!(text, "{}", moment.format(pattern)) {
        Ok(()) => Some(text),
        Err(_) => None,
    }
}

/// `Display` of `chrono::DateTime<chrono_tz::Tz>`, on the instant that
/// `TimeZone::timestamp_opt` makes of the two numbers in the zone that
/// `Tz::from_str` finds under the name. Trusted: the text depends on the
/// numbers and the name alone. It is `None` where the name is unknown or
/// `timestamp_opt` gives no instant.
#[verifier::external_body]
fn format_zoned(secs: i64, nanos: u32, zone: &str) -> (text: Option<String>)
    ensures
        opt_view(text) == zoned_text(secs, nanos, zone@),
{
    let tz: chrono_tz::Tz = zone.parse().ok()?;
    let moment = tz.timestamp_opt(secs, nanos).single()?;
    Some(moment.to_string())
}

impl Day {
    /// The first instant of the day.
    pub fn start(&self) -> (instant: Timestamp)
        ensures
            instant == day_start(self.days as int),
    {
        let days: i64 = self.days as i64;
        Timestamp { secs: days * 86_400, nanos: 0 }
    }

    /// The first instant of the day after.
    pub fn end(&self) -> (instant: Timestamp)
        ensures
            instant == day_start(self.days + 1),
    {
        let days: i64 = self.days as i64;
        Timestamp { secs: (days + 1) * 86_400, nanos: 0 }
    }
}

impl Timestamp {
    /// The instant in UTC under the given pattern.
    pub fn format(&self, pattern: &str) -> (text: Option<String>)
        ensures
            opt_view(text) == utc_text(self.secs, self.nanos, pattern@),
    {
        format_utc(self.secs, self.nanos, pattern)
    }
}

impl ZonedTime {
    /// The instant as it is shown in its zone.
    pub fn to_text(&self) -> (text: Option<String>)
        ensures
            opt_view(text) == zoned_text(self.at.secs, self.at.nanos, self.zone@),
    {
        format_zoned(self.at.secs, self.at.nanos, self.zone.as_str())
    }
}

/// A day starts at 86 400 seconds times its number, on the second, and the
/// day after it 86 400 seconds later.
pub proof fn day_start_is_exact(day: Day)
    ensures
        starts_day(day_start(day.days as int), day.days as int),
        starts_day(day_start(day.days + 1), day.days + 1),
        day_start(day.days + 1).secs - day_start(day.days as int).secs == 86_400,
{
}

} // verus!
