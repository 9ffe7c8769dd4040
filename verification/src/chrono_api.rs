//! The calls into the date library. Verus reads none of these bodies: each
//! contract states what the library documents of the call.

use vstd::prelude::*;
use std::str::FromStr;
use crate::calendar::{is_calendar_date, is_clock_time, timestamp_in_range, CivilDateTime};
use crate::text::{date_text, datetime_text, time_text};
use crate::zone::LocalResolution;

verus! {

/// The pattern in which a date is stored.
pub const DATE_FORMAT: &'static str = "%Y-%m-%d";

/// The pattern in which a time of day is stored.
pub const TIME_FORMAT: &'static str = "%H:%M:%S";

/// The pattern in which a date and time is stored.
pub const DATETIME_FORMAT: &'static str = "%Y-%m-%d %H:%M:%S";

/// `chrono::NaiveDate::from_ymd_opt`, then `NaiveDate::format` with the date
/// pattern. The first gives a date exactly for the days of the proleptic
/// Gregorian calendar in the years `MIN_YEAR` to `MAX_YEAR`. Of such a date
/// `%Y` writes the year in four digits, with a sign in front outside 0 to 9999,
/// and `%m` and `%d` write two digits each.
#[verifier::external_body]
pub(crate) fn format_date(year: i32, month: u32, day: u32, pattern: &str) -> (text: Option<String>)
    requires
        pattern@ == DATE_FORMAT@,
    ensures
        text.is_some() <==> is_calendar_date(year as int, month as int, day as int),
        text matches Some(t) ==> t@ == date_text(year as int, month as int, day as int),
{
    match chrono::NaiveDate::from_ymd_opt(year, month, day) {
        Some(date) => Some(date.format(pattern).to_string()),
        None => None,
    }
}

/// `chrono::NaiveTime::from_hms_opt`, then `NaiveTime::format` with the time
/// pattern. The first gives a time exactly where the hour is below 24 and
/// minute and second are below 60; `%H`, `%M` and `%S` write two digits each.
#[verifier::external_body]
pub(crate) fn format_time(hour: u32, minute: u32, second: u32, pattern: &str) -> (text: Option<
    String,
>)
    requires
        pattern@ == TIME_FORMAT@,
    ensures
        text.is_some() <==> is_clock_time(hour as int, minute as int, second as int),
        text matches Some(t) ==> t@ == time_text(hour as int, minute as int, second as int),
{
    match chrono::NaiveTime::from_hms_opt(hour, minute, second) {
        Some(time) => Some(time.format(pattern).to_string()),
        None => None,
    }
}

/// `chrono::NaiveDate::from_ymd_opt` and `NaiveDate::and_hms_opt`, then
/// `NaiveDateTime::format` with the pattern of date and time: the date, a
/// space and the time, each written as the two functions above write them.
#[verifier::external_body]
pub(crate) fn format_datetime(c: CivilDateTime, pattern: &str) -> (text: Option<String>)
    requires
        pattern@ == DATETIME_FORMAT@,
    ensures
        text.is_some() <==> c@.is_representable(),
        text matches Some(t) ==> t@ == datetime_text(c@),
{
    let date = chrono::NaiveDate::from_ymd_opt(c.year, c.month, c.day)?;
    let moment = date.and_hms_opt(c.hour, c.minute, c.second)?;
    Some(moment.format(pattern).to_string())
}

/// `chrono::DateTime::from_timestamp` with no nanoseconds, read through the
/// accessors of `Datelike` and `Timelike`. It gives the UTC date and time that
/// lies `ticks` seconds after the epoch, leap seconds not counted, and nothing
/// where the day of it lies outside the years `MIN_YEAR` to `MAX_YEAR`.
#[verifier::external_body]
pub(crate) fn utc_of_timestamp(ticks: i64) -> (found: Option<CivilDateTime>)
    ensures
        found.is_some() <==> timestamp_in_range(ticks as int),
        found matches Some(c) ==> (c@.exists_in_calendar() && c@.epoch_seconds() == ticks),
{
    let t = chrono::DateTime::from_timestamp(ticks, 0)?;
    Some(
        CivilDateTime {
            year: chrono::Datelike::year(&t),
            month: chrono::Datelike::month(&t),
            day: chrono::Datelike::day(&t),
            hour: chrono::Timelike::hour(&t),
            minute: chrono::Timelike::minute(&t),
            second: chrono::Timelike::second(&t),
        },
    )
}

/// Whether the zone database of `chrono_tz` has a zone of this name.
pub uninterp spec fn zone_exists(name: Seq<char>) -> bool;

/// What `chrono_tz` resolves a date and time on the clocks of a zone to. The
/// date and time is given in seconds from the epoch, counted as if the clocks
/// showed UTC.
pub uninterp spec fn zone_resolution(name: Seq<char>, local_seconds: int) -> LocalResolution;

/// `<chrono_tz::Tz as FromStr>::from_str`: whether the zone database has a
/// zone of this name. It has one named `UTC`.
#[verifier::external_body]
pub(crate) fn zone_is_known(name: &str) -> (known: bool)
    ensures
        known == zone_exists(name@),
        name@ == "UTC"@ ==> known,
{
    chrono_tz::Tz::from_str(name).is_ok()
}

/// `chrono::NaiveDateTime::and_local_timezone` with a zone of `chrono_tz`, each
/// instant read by `DateTime::timestamp`. Nothing comes back where the zone is
/// unknown or the date and time cannot be built (`NaiveDate::from_ymd_opt`,
/// `NaiveDate::and_hms_opt`). The zone `UTC` has one offset, zero: there every
/// date and time resolves to itself.
#[verifier::external_body]
pub(crate) fn resolve_local(zone: &str, local: CivilDateTime) -> (found: Option<LocalResolution>)
    ensures
        found.is_some() <==> (zone_exists(zone@) && local@.is_representable()),
        found matches Some(r) ==> r == zone_resolution(zone@, local@.epoch_seconds()),
        found matches Some(r) ==> zone@ == "UTC"@ ==> (r matches LocalResolution::Single(u) && u
            == local@.epoch_seconds()),
{
    let tz = chrono_tz::Tz::from_str(zone).ok()?;
    let date = chrono::NaiveDate::from_ymd_opt(local.year, local.month, local.day)?;
    let naive = date.and_hms_opt(local.hour, local.minute, local.second)?;
    Some(
        match naive.and_local_timezone(tz) {
            chrono::LocalResult::None => LocalResolution::Gap,
            chrono::LocalResult::Single(t) => LocalResolution::Single(t.timestamp()),
            chrono::LocalResult::Ambiguous(a, b) => LocalResolution::Ambiguous(
                a.timestamp(),
                b.timestamp(),
            ),
        },
    )
}

} // verus!
