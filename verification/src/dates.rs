//! Trusted boundary to the `jiff` and `chrono` libraries: parsing the RFC 2822
//! timestamps and ISO 8601 durations embedded in release pages, and stamping
//! cache rows. Parsing is a function of the text alone, so the results bear
//! names; the wall-clock stamp promises nothing.

use vstd::prelude::*;

use crate::data::Date;

verus! {

/// An RFC 2822 timestamp read from text: its instant as seconds since the
/// epoch, and its calendar date rounded to day granularity in its own offset.
pub uninterp spec fn rfc2822_of(s: Seq<char>) -> Option<(i64, Date)>;

/// An ISO 8601 duration read from text, in whole seconds.
pub uninterp spec fn iso_duration_secs_of(s: Seq<char>) -> Option<i64>;

/// Relies on `jiff::fmt::rfc2822::parse`, `Zoned::timestamp`,
/// `Zoned::round` with day granularity, and the civil date accessors.
#[verifier::external_body]
pub fn parse_rfc2822(s: &str) -> (r: Option<(i64, Date)>)
    ensures
        r == rfc2822_of(s@),
{
    let zoned = jiff::fmt::rfc2822::parse(s).ok()?;
    let seconds = zoned.timestamp().as_second();
    let rounded = zoned.round(jiff::Unit::Day).ok()?;
    let date = Date {
        year: rounded.year() as i32,
        month: rounded.month() as u8,
        day: rounded.day() as u8,
    };
    Some((seconds, date))
}

/// Relies on `str::parse::<jiff::SignedDuration>` and
/// `SignedDuration::as_secs`: the duration truncated to whole seconds.
#[verifier::external_body]
pub fn parse_iso_duration(s: &str) -> (r: Option<i64>)
    ensures
        r == iso_duration_secs_of(s@),
{
    s.parse::<jiff::SignedDuration>().ok().map(|d| d.as_secs())
}

/// Relies on `chrono::Utc::now` and `to_rfc3339`: the wall-clock time as
/// text, for stamping cache rows; nothing is promised of it.
#[verifier::external_body]
pub fn now_rfc3339() -> String {
    chrono::Utc::now().to_rfc3339()
}

} // verus!
