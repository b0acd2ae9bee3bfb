use crate::error::AppError;
use chrono::{Datelike, TimeZone, Timelike};
use vstd::prelude::*;

verus! {

/// The first day number that the library accepts for a date: 1 January of
/// year 1.
pub const MIN_DAY: i32 = 1;

/// The last day number that the library accepts for a date: 31 December of
/// year 9999.
pub const MAX_DAY: i32 = 3_652_059;

/// The last instant that a clock can be read at, in seconds since the Unix
/// epoch: the last second of year 9999.
pub const MAX_CLOCK_SECS: i64 = 253_402_300_799;

/// Whether `day` is the number of a date in the years 1 to 9999. Day 1 is
/// 1 January of year 1, and 1 January 1970 is day 719163.
pub open spec fn valid_day(day: i32) -> bool {
    MIN_DAY <= day <= MAX_DAY
}

/// Whether the time zone database knows a zone by this name.
pub uninterp spec fn timezone_known(name: Seq<char>) -> bool;

/// The number of the local calendar day in the named zone at the instant
/// `utc_secs`.
pub uninterp spec fn local_day_of(utc_secs: i64, timezone: Seq<char>) -> i32;

/// The local hour of day in the named zone at the instant `utc_secs`.
pub uninterp spec fn local_hour_of(utc_secs: i64, timezone: Seq<char>) -> u32;

/// The text of the date with number `day`, as year, month and day.
pub uninterp spec fn day_label_of(day: i32) -> Seq<char>;

/// One reading of the clock: the instant in seconds since the Unix epoch, and
/// the calendar day and hour of day that it falls on in the facility's zone.
#[derive(Clone, Copy, Debug)]
pub struct Clock {
    pub now: i64,
    pub today: i32,
    pub hour: u32,
}

/// The reading of the facility's clock at the instant `utc_secs`.
pub open spec fn facility_clock(utc_secs: i64, timezone: Seq<char>) -> Clock {
    Clock {
        now: utc_secs,
        today: local_day_of(utc_secs, timezone),
        hour: local_hour_of(utc_secs, timezone),
    }
}

/// Calls `str::parse` for `chrono_tz::Tz`, which looks the name up in the time
/// zone table that the crate was built with. The result says whether the name
/// was found.
#[verifier::external_body]
pub(crate) fn timezone_is_known(name: &str) -> (known: bool)
    ensures
        known == timezone_known(name@),
{
    name.parse::<chrono_tz::Tz>().is_ok()
}

/// Calls `TimeZone::timestamp_opt` on the named zone and takes the day number
/// of the local date with `DateTime::date_naive` and
/// `Datelike::num_days_from_ce`. The instant is kept within the years 1970 to
/// 9999, where chrono can represent every local time.
#[verifier::external_body]
fn local_day(utc_secs: i64, timezone: &str) -> (day: i32)
    requires
        timezone_known(timezone@),
        0 <= utc_secs <= MAX_CLOCK_SECS,
    ensures
        day == local_day_of(utc_secs, timezone@),
{
    let zone: chrono_tz::Tz = timezone.parse().unwrap();
    zone.timestamp_opt(utc_secs, 0).unwrap().date_naive().num_days_from_ce()
}

/// Calls `TimeZone::timestamp_opt` on the named zone and takes the local hour
/// with `Timelike::hour`, which chrono documents as a number from 0 to 23.
#[verifier::external_body]
fn local_hour(utc_secs: i64, timezone: &str) -> (hour: u32)
    requires
        timezone_known(timezone@),
        0 <= utc_secs <= MAX_CLOCK_SECS,
    ensures
        hour == local_hour_of(utc_secs, timezone@),
        hour < 24,
{
    let zone: chrono_tz::Tz = timezone.parse().unwrap();
    zone.timestamp_opt(utc_secs, 0).unwrap().hour()
}

/// Calls `NaiveDate::from_num_days_from_ce_opt`, which accepts every day
/// number of the years 1 to 9999, and formats the date with its `Debug`
/// impl.
#[verifier::external_body]
pub(crate) fn day_label(day: i32) -> (label: String)
    requires
        valid_day(day),
    ensures
        label@ == day_label_of(day),
{
    format!("{:?}", chrono::NaiveDate::from_num_days_from_ce_opt(day).unwrap())
}

/// Reads the facility's clock at the instant `utc_secs`: the local day and
/// hour in the configured zone. An unknown zone is a configuration error.
pub fn read_clock(utc_secs: i64, timezone: &str) -> (res: Result<Clock, AppError>)
    requires
        0 <= utc_secs <= MAX_CLOCK_SECS,
    ensures
        res is Ok <==> timezone_known(timezone@),
        res matches Ok(clock) ==> clock == facility_clock(utc_secs, timezone@) && clock.hour < 24,
        res matches Err(e) ==> e.is_config("Invalid gym timezone configuration."@),
{
    if !timezone_is_known(timezone) {
        return Err(AppError::Config(String::from_str("Invalid gym timezone configuration.")));
    }
    let today = local_day(utc_secs, timezone);
    let hour = local_hour(utc_secs, timezone);
    Ok(Clock { now: utc_secs, today, hour })
}

} // verus!
