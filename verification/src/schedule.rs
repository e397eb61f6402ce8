use vstd::prelude::*;
use std::str::FromStr;
use chrono::TimeZone;
use crate::time::{Timestamp, representable, earlier, LATEST_SECS, NANOS_PER_SEC};

verus! {

/// Seconds since the Unix epoch of 2101-01-01T00:00:00Z; the cron crate
/// only produces years from 1970 through 2100.
pub const END_OF_CRON_YEARS: i64 = 4133980800;

#[verifier::external_type_specification]
#[verifier::external_body]
pub struct ExSchedule(cron::Schedule);

/// Whether `cron::Schedule::from_str` accepts the expression.
pub uninterp spec fn cron_parses(expression: Seq<char>) -> bool;

/// The first instant, as (seconds, nanoseconds), that `cron::Schedule::after`
/// yields for the parsed expression after the given instant.
pub uninterp spec fn cron_next_after(expression: Seq<char>, secs: i64, nanos: u32) -> Option<(i64, u32)>;

/// A parsed cron expression together with the text it was parsed from.
pub struct CronSchedule {
    source: String,
    compiled: cron::Schedule,
}

impl CronSchedule {
    /// The expression this schedule was parsed from.
    pub closed spec fn source(&self) -> Seq<char> {
        self.source@
    }

    /// Parses `expression` with `cron::Schedule::from_str`.
    ///
    /// Claims: the result is present exactly when the cron crate accepts the
    /// expression, and then it remembers the expression.
    #[verifier::external_body]
    pub fn parse(expression: &str) -> (res: Option<CronSchedule>)
        ensures
            res is Some <==> cron_parses(expression@),
            res matches Some(s) ==> s.source() == expression@,
    {
        match cron::Schedule::from_str(expression) {
            Ok(compiled) => Some(CronSchedule { source: expression.to_string(), compiled }),
            Err(_) => None,
        }
    }

    /// The next instant of the schedule after `after`, through
    /// `cron::Schedule::after` and the first item of that iterator.
    ///
    /// `after` must be a chrono date-time that can still be moved one second
    /// forward (the cron crate starts its search one second later).
    /// Claims, besides the named result: the cron crate builds each candidate
    /// from whole calendar fields at or after that later second, in a year
    /// from 1970 through 2100, so a result is strictly later than `after`,
    /// has no sub-second part, and lies between the epoch and the end of 2100.
    #[verifier::external_body]
    pub fn next_after(&self, after: Timestamp) -> (res: Option<Timestamp>)
        requires
            representable(after),
            after.secs < LATEST_SECS,
        ensures
            res is None <==> cron_next_after(self.source(), after.secs, after.nanos) is None,
            res matches Some(n) ==> cron_next_after(self.source(), after.secs, after.nanos) == Some((n.secs, n.nanos)),
            res matches Some(n) ==> earlier(after, n) && n.nanos == 0 && 0 <= n.secs < END_OF_CRON_YEARS,
    {
        let start = chrono::DateTime::from_timestamp(after.secs, after.nanos).unwrap();
        match self.compiled.after(&start).next() {
            Some(next) => Some(Timestamp { secs: next.timestamp(), nanos: next.timestamp_subsec_nanos() }),
            None => None,
        }
    }
}

/// The largest offset, in seconds, between local time and UTC that chrono's
/// `FixedOffset` holds (it holds offsets strictly between minus and plus
/// this).
pub const DAY_SECS: i32 = 86400;

/// The text chrono's `format` with the layout "%A, %B %e, at %l:%M %p"
/// writes for the instant, seen at `offset` seconds east of UTC.
pub uninterp spec fn date_text(secs: i64, nanos: u32, offset: i32) -> Seq<char>;

/// The machine's local offset from UTC at the instant, in seconds east,
/// through `chrono::Local`'s `offset_from_utc_datetime` and
/// `FixedOffset::local_minus_utc`.
///
/// Claims only what holds of every outcome: chrono makes a `FixedOffset`
/// only strictly within a day of UTC. Which offset comes back depends on
/// the machine's time zone and is not stated.
#[verifier::external_body]
pub fn local_offset_at(t: Timestamp) -> (res: i32)
    requires
        0 <= t.secs < END_OF_CRON_YEARS,
        t.nanos < NANOS_PER_SEC,
    ensures
        -DAY_SECS < res < DAY_SECS,
{
    let utc = chrono::DateTime::from_timestamp(t.secs, t.nanos).unwrap();
    chrono::Local.offset_from_utc_datetime(&utc.naive_utc()).local_minus_utc()
}

/// Writes the instant as seen at `offset` seconds east of UTC, through
/// `chrono::FixedOffset::east_opt`, `from_utc_datetime` and `format` with
/// the layout "%A, %B %e, at %l:%M %p".
///
/// Claims: the text is chrono's (named, not spelled out).
#[verifier::external_body]
pub fn format_date(t: Timestamp, offset: i32) -> (res: String)
    requires
        0 <= t.secs < END_OF_CRON_YEARS,
        t.nanos < NANOS_PER_SEC,
        -DAY_SECS < offset < DAY_SECS,
    ensures
        res@ == date_text(t.secs, t.nanos, offset),
{
    let utc = chrono::DateTime::from_timestamp(t.secs, t.nanos).unwrap();
    let zone = chrono::FixedOffset::east_opt(offset).unwrap();
    zone.from_utc_datetime(&utc.naive_utc()).format("%A, %B %e, at %l:%M %p").to_string()
}

} // verus!
