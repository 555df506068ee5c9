//! Instants as UNIX seconds: the wall clock, the range of instants that
//! denote a calendar date, and the reading of calendar date strings.

use std::time::{Duration, SystemTime, SystemTimeError};
use time::format_description::well_known::Iso8601;
use time::{OffsetDateTime, PrimitiveDateTime};
use vstd::prelude::*;
use vstd::string::StringExecFns;
use crate::text::has_char;

verus! {

/// Midnight at the start of the year -9999, the earliest instant that denotes
/// a calendar date.
pub const MIN_TIMESTAMP: i64 = -377_705_116_800;

/// The last second of the year 9999, the latest instant that denotes a
/// calendar date.
pub const MAX_TIMESTAMP: i64 = 253_402_300_799;

/// `ts` is a resolved instant: UNIX seconds that denote a calendar date.
pub open spec fn is_resolved(ts: int) -> bool {
    MIN_TIMESTAMP <= ts <= MAX_TIMESTAMP
}

/// `std::time::SystemTime`, a reading of the system clock.
#[verifier::external_type_specification]
#[verifier::external_body]
pub struct ExSystemTime(SystemTime);

/// `std::time::SystemTimeError`, the error of a clock that stands before the
/// instant it is measured from.
#[verifier::external_type_specification]
#[verifier::external_body]
pub struct ExSystemTimeError(SystemTimeError);

/// `SystemTime::now`: the reading of the system clock. Nothing is claimed of
/// it.
#[verifier::external_body]
fn system_clock() -> SystemTime {
    SystemTime::now()
}

/// `SystemTime::duration_since`, measured from the UNIX epoch: the time
/// elapsed since the epoch, or an error where `at` lies before it.
#[verifier::external_body]
fn since_epoch(at: &SystemTime) -> Result<Duration, SystemTimeError> {
    at.duration_since(SystemTime::UNIX_EPOCH)
}

/// `Duration::as_secs`: the whole seconds of a duration.
#[verifier::external_body]
fn whole_seconds(span: &Duration) -> u64 {
    span.as_secs()
}

/// The current time in UNIX seconds; 0 where the clock stands before the
/// epoch.
pub fn get_now() -> u64 {
    let at = system_clock();
    seconds_or_epoch(
        match since_epoch(&at) {
            Ok(span) => Some(whole_seconds(&span)),
            Err(_) => None,
        },
    )
}

/// The time that a reading of the clock stands for: the whole seconds that
/// elapsed since the epoch, and the epoch itself where the clock stands
/// before it and no time elapsed.
pub fn seconds_or_epoch(elapsed: Option<u64>) -> (now: u64)
    ensures
        now == match elapsed {
            Some(seconds) => seconds,
            None => 0,
        },
{
    match elapsed {
        Some(seconds) => seconds,
        None => 0,
    }
}

/// What `PrimitiveDateTime::parse` with `Iso8601::DEFAULT` makes of a text,
/// read as UTC and given in UNIX seconds; `None` where it rejects the text.
pub uninterp spec fn iso8601_seconds(text: Seq<char>) -> Option<i64>;

/// Month (1 to 12) and day of the month (1 to 31) of the UTC calendar date of
/// an instant, as `OffsetDateTime::from_unix_timestamp` gives them.
pub uninterp spec fn civil_month_day(ts: i64) -> (u8, u8);

/// Parses an ISO 8601 date-time with the `time` crate
/// (`PrimitiveDateTime::parse` with `Iso8601::DEFAULT`) and reads it as UTC
/// (`assume_utc`, then `unix_timestamp`). Built without its `large-dates`
/// feature, the crate holds no date-time outside the years -9999 to 9999, so
/// a parsed instant is resolved.
#[verifier::external_body]
pub(crate) fn parse_iso8601(text: &str) -> (parsed: Option<i64>)
    ensures
        parsed == iso8601_seconds(text@),
        parsed matches Some(ts) ==> is_resolved(ts as int),
{
    PrimitiveDateTime::parse(text, &Iso8601::DEFAULT).ok().map(|at| at.assume_utc().unix_timestamp())
}

/// The month and day of an instant's UTC date by
/// `OffsetDateTime::from_unix_timestamp` of the `time` crate, which, built
/// without its `large-dates` feature, accepts exactly the resolved instants;
/// `Month` converts to its number from 1 to 12, and `day` is the day of the
/// month.
#[verifier::external_body]
pub(crate) fn month_and_day(ts: i64) -> (date: Option<(u8, u8)>)
    ensures
        date is Some <==> is_resolved(ts as int),
        date matches Some(md) ==> md == civil_month_day(ts) && 1 <= md.0 <= 12 && 1 <= md.1 <= 31,
{
    OffsetDateTime::from_unix_timestamp(ts).ok().map(|at| (u8::from(at.month()), at.day()))
}

/// The month (1 to 12) and the day of the month (1 to 31) of the UTC date of
/// an instant; `None` where the instant is not resolved.
pub fn utc_month_day(ts: i64) -> (date: Option<(u8, u8)>)
    ensures
        date is Some <==> is_resolved(ts as int),
        date matches Some(md) ==> md == civil_month_day(ts) && 1 <= md.0 <= 12 && 1 <= md.1 <= 31,
{
    month_and_day(ts)
}

/// A calendar date string with its time of day: a string without a `T` is a
/// bare date and stands for midnight UTC.
pub open spec fn with_time_of_day(text: Seq<char>) -> Seq<char> {
    if text.contains('T') {
        text
    } else {
        text + "T000000Z"@
    }
}

/// The instant that a parsed date stands for: unparsable dates resolve to 0.
pub open spec fn instant_or_epoch(parsed: Option<i64>) -> i64 {
    match parsed {
        Some(ts) => ts,
        None => 0,
    }
}

/// The instant of a calendar date string, in UNIX seconds.
pub open spec fn unix_of_date(text: Seq<char>) -> i64 {
    instant_or_epoch(iso8601_seconds(with_time_of_day(text)))
}

/// Appends midnight UTC to a date string that has no time of day.
pub fn complete_date(input: String) -> (full: String)
    ensures
        full@ == with_time_of_day(input@),
{
    let mut full = input;
    if !has_char(full.as_str(), 'T') {
        full.append("T000000Z");
    }
    full
}

/// Resolves the outcome of parsing a date: the parsed instant, or 0 where the
/// date could not be parsed.
pub fn resolve_instant(parsed: Option<i64>) -> (ts: i64)
    ensures
        ts == instant_or_epoch(parsed),
{
    match parsed {
        Some(ts) => ts,
        None => 0,
    }
}

/// Converts a calendar date string to UNIX seconds. Dates without a time are
/// taken at midnight UTC; a date that cannot be parsed gives 0.
pub fn convert_ics_date_unix(input: String) -> (ts: i64)
    ensures
        ts == unix_of_date(input@),
        is_resolved(ts as int),
{
    let full = complete_date(input);
    resolve_instant(parse_iso8601(full.as_str()))
}

} // verus!
