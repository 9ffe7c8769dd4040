//! The proleptic Gregorian calendar and the clock, as far as the adapters
//! need them: which dates and times exist, and how they count from the epoch
//! (1970-01-01 00:00:00 UTC).

use vstd::prelude::*;

verus! {

/// The first year that a date of the date library can have.
pub const MIN_YEAR: i32 = -262143;

/// The last year that a date of the date library can have.
pub const MAX_YEAR: i32 = 262142;

/// Whether `year` has a 29th of February.
pub open spec fn is_leap_year(year: int) -> bool {
    year % 4 == 0 && (year % 100 != 0 || year % 400 == 0)
}

/// The number of days of `year`.
pub open spec fn days_in_year(year: int) -> int {
    if is_leap_year(year) {
        366
    } else {
        365
    }
}

/// The number of days of `month` in `year`; 0 where `month` is no month.
pub open spec fn days_in_month(year: int, month: int) -> int {
    if month == 2 {
        if is_leap_year(year) {
            29
        } else {
            28
        }
    } else if month == 4 || month == 6 || month == 9 || month == 11 {
        30
    } else if 1 <= month <= 12 {
        31
    } else {
        0
    }
}

/// Whether the day exists in the proleptic Gregorian calendar.
pub open spec fn is_gregorian_date(year: int, month: int, day: int) -> bool {
    1 <= month <= 12 && 1 <= day <= days_in_month(year, month)
}

/// Whether the day exists and its year is one that the date library can hold.
pub open spec fn is_calendar_date(year: int, month: int, day: int) -> bool {
    MIN_YEAR <= year <= MAX_YEAR && is_gregorian_date(year, month, day)
}

/// Whether the clock can show this time (no leap second).
pub open spec fn is_clock_time(hour: int, minute: int, second: int) -> bool {
    0 <= hour < 24 && 0 <= minute < 60 && 0 <= second < 60
}

/// The number of days from 0001-01-01 to the first of January of `year`
/// (negative before year 1).
pub open spec fn days_before_year(year: int) -> int {
    let n = year - 1;
    365 * n + n / 4 - n / 100 + n / 400
}

/// The number of days of `year` that lie before the first of `month`.
pub open spec fn days_before_month(year: int, month: int) -> int
    decreases month,
{
    if month <= 1 {
        0
    } else {
        days_before_month(year, month - 1) + days_in_month(year, month - 1)
    }
}

/// The number of days from 1970-01-01 to the given day (negative before it).
pub open spec fn day_number(year: int, month: int, day: int) -> int {
    days_before_year(year) + days_before_month(year, month) + (day - 1) - 719162
}

/// The number of seconds from midnight to the given time.
pub open spec fn second_of_day(hour: int, minute: int, second: int) -> int {
    hour * 3600 + minute * 60 + second
}

/// A date and a time of day, as mathematical integers.
pub struct Civil {
    pub year: int,
    pub month: int,
    pub day: int,
    pub hour: int,
    pub minute: int,
    pub second: int,
}

impl Civil {
    /// Whether the day exists in the calendar and the time on the clock.
    pub open spec fn exists_in_calendar(self) -> bool {
        is_gregorian_date(self.year, self.month, self.day) && is_clock_time(
            self.hour,
            self.minute,
            self.second,
        )
    }

    /// Whether it exists and its year is one that the date library can hold.
    pub open spec fn is_representable(self) -> bool {
        MIN_YEAR <= self.year <= MAX_YEAR && self.exists_in_calendar()
    }

    /// The number of seconds from the epoch to this date and time, read as UTC.
    pub open spec fn epoch_seconds(self) -> int {
        day_number(self.year, self.month, self.day) * 86400 + second_of_day(
            self.hour,
            self.minute,
            self.second,
        )
    }
}

/// Whether the date library can hold the UTC date and time of a Unix
/// timestamp: its day lies between the first of January of `MIN_YEAR` and the
/// 31st of December of `MAX_YEAR`.
pub open spec fn timestamp_in_range(ticks: int) -> bool {
    day_number(MIN_YEAR as int, 1, 1) <= ticks / 86400 <= day_number(MAX_YEAR as int, 12, 31)
}

/// The UTC date and time of a Unix timestamp: the one that exists in the
/// calendar and lies `ticks` seconds from the epoch.
pub open spec fn civil_of_timestamp(ticks: int) -> Civil {
    choose|c: Civil| c.exists_in_calendar() && c.epoch_seconds() == ticks
}

/// A date and a time of day in machine integers.
#[derive(Clone, Copy, Debug, PartialEq, Eq, Structural)]
pub struct CivilDateTime {
    pub year: i32,
    pub month: u32,
    pub day: u32,
    pub hour: u32,
    pub minute: u32,
    pub second: u32,
}

impl View for CivilDateTime {
    type V = Civil;

    open spec fn view(&self) -> Civil {
        Civil {
            year: self.year as int,
            month: self.month as int,
            day: self.day as int,
            hour: self.hour as int,
            minute: self.minute as int,
            second: self.second as int,
        }
    }
}

/// The days before each month, month by month.
pub proof fn lemma_days_before_month(year: int)
    ensures
        days_before_month(year, 1) == 0,
        days_before_month(year, 2) == 31,
        days_before_month(year, 3) == 31 + days_in_month(year, 2),
        days_before_month(year, 4) == 62 + days_in_month(year, 2),
        days_before_month(year, 5) == 92 + days_in_month(year, 2),
        days_before_month(year, 6) == 123 + days_in_month(year, 2),
        days_before_month(year, 7) == 153 + days_in_month(year, 2),
        days_before_month(year, 8) == 184 + days_in_month(year, 2),
        days_before_month(year, 9) == 215 + days_in_month(year, 2),
        days_before_month(year, 10) == 245 + days_in_month(year, 2),
        days_before_month(year, 11) == 276 + days_in_month(year, 2),
        days_before_month(year, 12) == 306 + days_in_month(year, 2),
        days_before_month(year, 13) == days_in_year(year),
{
    reveal_with_fuel(days_before_month, 14);
}

/// A year later the first of January lies one year's length further on.
pub proof fn lemma_year_step(year: int)
    ensures
        days_before_year(year + 1) == days_before_year(year) + days_in_year(year),
{
}

/// Between two years lie at least 365 days for each year.
pub proof fn lemma_years_apart(first: int, second: int)
    requires
        first <= second,
    ensures
        days_before_year(second) >= days_before_year(first) + 365 * (second - first),
    decreases second - first,
{
    if first < second {
        lemma_years_apart(first, second - 1);
        lemma_year_step(second - 1);
    }
}

/// A day of the calendar lies within its year.
pub proof fn lemma_day_within_year(year: int, month: int, day: int)
    requires
        is_gregorian_date(year, month, day),
    ensures
        0 <= days_before_month(year, month) + (day - 1) < days_in_year(year),
{
    lemma_days_before_month(year);
}

/// Within one year, a later day of the calendar has a greater day number.
pub proof fn lemma_day_number_increases_within_year(
    year: int,
    month1: int,
    day1: int,
    month2: int,
    day2: int,
)
    requires
        is_gregorian_date(year, month1, day1),
        is_gregorian_date(year, month2, day2),
        month1 < month2 || (month1 == month2 && day1 < day2),
    ensures
        day_number(year, month1, day1) < day_number(year, month2, day2),
{
    lemma_days_before_month(year);
}

/// A later day of the calendar has a greater day number.
pub proof fn lemma_day_number_increases(
    year1: int,
    month1: int,
    day1: int,
    year2: int,
    month2: int,
    day2: int,
)
    requires
        is_gregorian_date(year1, month1, day1),
        is_gregorian_date(year2, month2, day2),
        year1 < year2 || (year1 == year2 && (month1 < month2 || (month1 == month2 && day1
            < day2))),
    ensures
        day_number(year1, month1, day1) < day_number(year2, month2, day2),
{
    if year1 == year2 {
        lemma_day_number_increases_within_year(year1, month1, day1, month2, day2);
    } else {
        lemma_day_within_year(year1, month1, day1);
        lemma_day_within_year(year2, month2, day2);
        lemma_year_step(year1);
        lemma_years_apart(year1 + 1, year2);
    }
}

/// Two days of the calendar with one day number are one day.
pub proof fn lemma_day_number_injective(
    year1: int,
    month1: int,
    day1: int,
    year2: int,
    month2: int,
    day2: int,
)
    requires
        is_gregorian_date(year1, month1, day1),
        is_gregorian_date(year2, month2, day2),
        day_number(year1, month1, day1) == day_number(year2, month2, day2),
    ensures
        year1 == year2,
        month1 == month2,
        day1 == day2,
{
    if year1 < year2 || (year1 == year2 && (month1 < month2 || (month1 == month2 && day1
        < day2))) {
        lemma_day_number_increases(year1, month1, day1, year2, month2, day2);
    } else if year2 < year1 || (year2 == year1 && (month2 < month1 || (month2 == month1 && day2
        < day1))) {
        lemma_day_number_increases(year2, month2, day2, year1, month1, day1);
    }
}

/// Of a date and time that exists, the seconds from the epoch split into the
/// day number and the second of the day.
pub proof fn lemma_epoch_seconds_split(c: Civil)
    requires
        c.exists_in_calendar(),
    ensures
        c.epoch_seconds() / 86400 == day_number(c.year, c.month, c.day),
        c.epoch_seconds() % 86400 == second_of_day(c.hour, c.minute, c.second),
        0 <= second_of_day(c.hour, c.minute, c.second) < 86400,
{
}

/// Two dates and times that exist and lie equally far from the epoch are one.
pub proof fn lemma_epoch_seconds_injective(a: Civil, b: Civil)
    requires
        a.exists_in_calendar(),
        b.exists_in_calendar(),
        a.epoch_seconds() == b.epoch_seconds(),
    ensures
        a == b,
{
    lemma_epoch_seconds_split(a);
    lemma_epoch_seconds_split(b);
    lemma_day_number_injective(a.year, a.month, a.day, b.year, b.month, b.day);
}

/// A date and time that exists and lies `ticks` seconds from the epoch is the
/// UTC date and time of `ticks`.
pub proof fn lemma_civil_of_timestamp(c: Civil, ticks: int)
    requires
        c.exists_in_calendar(),
        c.epoch_seconds() == ticks,
    ensures
        civil_of_timestamp(ticks) == c,
{
    let chosen = civil_of_timestamp(ticks);
    lemma_epoch_seconds_injective(chosen, c);
}

/// The date library can hold the UTC date of a timestamp exactly when it can
/// hold the year of that date.
pub proof fn lemma_timestamp_range_is_year_range(c: Civil)
    requires
        c.exists_in_calendar(),
    ensures
        timestamp_in_range(c.epoch_seconds()) <==> MIN_YEAR <= c.year <= MAX_YEAR,
{
    lemma_epoch_seconds_split(c);
    lemma_days_before_month(MIN_YEAR as int);
    lemma_days_before_month(MAX_YEAR as int);
    let first = day_number(MIN_YEAR as int, 1, 1);
    let last = day_number(MAX_YEAR as int, 12, 31);
    let n = day_number(c.year, c.month, c.day);
    if c.year < MIN_YEAR {
        lemma_day_number_increases(c.year, c.month, c.day, MIN_YEAR as int, 1, 1);
    } else if c.year > MAX_YEAR {
        lemma_day_number_increases(MAX_YEAR as int, 12, 31, c.year, c.month, c.day);
    } else {
        if c.year > MIN_YEAR || c.month > 1 || c.day > 1 {
            lemma_day_number_increases(MIN_YEAR as int, 1, 1, c.year, c.month, c.day);
        }
        if c.year < MAX_YEAR || c.month < 12 || c.day < 31 {
            lemma_day_number_increases(c.year, c.month, c.day, MAX_YEAR as int, 12, 31);
        }
    }
}

/// The day after a day of the calendar.
pub open spec fn next_day(year: int, month: int, day: int) -> (int, int, int) {
    if day < days_in_month(year, month) {
        (year, month, day + 1)
    } else if month < 12 {
        (year, month + 1, 1)
    } else {
        (year + 1, 1, 1)
    }
}

/// The day before a day of the calendar.
pub open spec fn previous_day(year: int, month: int, day: int) -> (int, int, int) {
    if day > 1 {
        (year, month, day - 1)
    } else if month > 1 {
        (year, month - 1, days_in_month(year, month - 1))
    } else {
        (year - 1, 12, 31)
    }
}

/// The day after a day of the calendar is a day of the calendar, with the
/// next day number.
pub proof fn lemma_next_day(year: int, month: int, day: int)
    requires
        is_gregorian_date(year, month, day),
    ensures
        ({
            let (y, m, d) = next_day(year, month, day);
            is_gregorian_date(y, m, d) && day_number(y, m, d) == day_number(year, month, day) + 1
        }),
{
    lemma_days_before_month(year);
    lemma_days_before_month(year + 1);
    lemma_year_step(year);
}

/// The day before a day of the calendar is a day of the calendar, with the
/// day number before.
pub proof fn lemma_previous_day(year: int, month: int, day: int)
    requires
        is_gregorian_date(year, month, day),
    ensures
        ({
            let (y, m, d) = previous_day(year, month, day);
            is_gregorian_date(y, m, d) && day_number(y, m, d) == day_number(year, month, day) - 1
        }),
{
    lemma_days_before_month(year);
    lemma_days_before_month(year - 1);
    lemma_year_step(year - 1);
}

/// Every day number is that of a day of the calendar: the one that comes
/// back.
pub proof fn lemma_day_exists(n: int) -> (date: (int, int, int))
    ensures
        is_gregorian_date(date.0, date.1, date.2),
        day_number(date.0, date.1, date.2) == n,
    decreases
            if n >= 0 {
                n
            } else {
                -n
            },
{
    if n == 0 {
        lemma_days_before_month(1970);
        (1970, 1, 1)
    } else if n > 0 {
        let before = lemma_day_exists(n - 1);
        lemma_next_day(before.0, before.1, before.2);
        next_day(before.0, before.1, before.2)
    } else {
        let after = lemma_day_exists(n + 1);
        lemma_previous_day(after.0, after.1, after.2);
        previous_day(after.0, after.1, after.2)
    }
}

/// Every Unix timestamp has a UTC date and time: it exists in the calendar
/// and lies that many seconds from the epoch.
pub proof fn lemma_timestamp_has_civil(ticks: int)
    ensures
        civil_of_timestamp(ticks).exists_in_calendar(),
        civil_of_timestamp(ticks).epoch_seconds() == ticks,
        timestamp_in_range(ticks) <==> MIN_YEAR <= civil_of_timestamp(ticks).year <= MAX_YEAR,
{
    let date = lemma_day_exists(ticks / 86400);
    let rest = ticks % 86400;
    let c = Civil {
        year: date.0,
        month: date.1,
        day: date.2,
        hour: rest / 3600,
        minute: (rest % 3600) / 60,
        second: rest % 60,
    };
    assert(c.exists_in_calendar());
    assert(c.epoch_seconds() == ticks);
    lemma_timestamp_range_is_year_range(civil_of_timestamp(ticks));
}

/// The years that can be stored, counted from a multiple of 400 that lies
/// before them all: 656 times 400 years are 95839632 days.
proof fn lemma_shifted_year(year: int)
    ensures
        days_before_year(year + 262400) == days_before_year(year) + 95839632,
        is_leap_year(year + 262400) == is_leap_year(year),
{
    let n = year - 1;
    assert((n + 262400) / 4 == n / 4 + 65600);
    assert((n + 262400) / 100 == n / 100 + 2624);
    assert((n + 262400) / 400 == n / 400 + 656);
}

/// Whether a year that can be stored has a 29th of February.
pub(crate) fn leap_year(year: i32) -> (leap: bool)
    requires
        MIN_YEAR <= year <= MAX_YEAR,
    ensures
        leap == is_leap_year(year as int),
{
    let shifted: u32 = (year + 262400) as u32;
    proof {
        lemma_shifted_year(year as int);
    }
    shifted % 4 == 0 && (shifted % 100 != 0 || shifted % 400 == 0)
}

/// The number of days from 0001-01-01 to the first of January of a year that
/// can be stored.
pub(crate) fn days_to_year(year: i32) -> (days: i64)
    requires
        MIN_YEAR <= year <= MAX_YEAR,
    ensures
        days == days_before_year(year as int),
{
    let n: i64 = year as i64 + 262400 - 1;
    proof {
        lemma_shifted_year(year as int);
    }
    365 * n + n / 4 - n / 100 + n / 400 - 95839632
}

/// The number of days of a year that lie before the first of a month.
pub(crate) fn days_to_month(leap: bool, month: u32) -> (days: i64)
    requires
        1 <= month <= 12,
    ensures
        forall|year: int| is_leap_year(year) == leap ==> days == days_before_month(year, month as int),
{
    let february: i64 = if leap {
        29
    } else {
        28
    };
    assert forall|year: int| is_leap_year(year) == leap implies days_before_month(year, 1) == 0
        && days_before_month(year, 2) == 31 && days_before_month(year, 3) == 31 + february
        && days_before_month(year, 4) == 62 + february && days_before_month(year, 5) == 92
        + february && days_before_month(year, 6) == 123 + february && days_before_month(year, 7)
        == 153 + february && days_before_month(year, 8) == 184 + february && days_before_month(
        year,
        9,
    ) == 215 + february && days_before_month(year, 10) == 245 + february && days_before_month(
        year,
        11,
    ) == 276 + february && days_before_month(year, 12) == 306 + february by {
        lemma_days_before_month(year);
    }
    if month == 1 {
        0
    } else if month == 2 {
        31
    } else if month == 3 {
        31 + february
    } else if month == 4 {
        62 + february
    } else if month == 5 {
        92 + february
    } else if month == 6 {
        123 + february
    } else if month == 7 {
        153 + february
    } else if month == 8 {
        184 + february
    } else if month == 9 {
        215 + february
    } else if month == 10 {
        245 + february
    } else if month == 11 {
        276 + february
    } else {
        306 + february
    }
}

/// The number of seconds from the epoch to a date and time that exists and
/// can be stored, read as UTC.
pub(crate) fn epoch_seconds_of(c: CivilDateTime) -> (ticks: i64)
    requires
        c@.is_representable(),
    ensures
        ticks == c@.epoch_seconds(),
{
    let before_year: i64 = days_to_year(c.year);
    let before_month: i64 = days_to_month(leap_year(c.year), c.month);
    proof {
        lemma_day_within_year(c.year as int, c.month as int, c.day as int);
        lemma_years_apart(MIN_YEAR as int, c.year as int);
        lemma_years_apart(c.year as int, MAX_YEAR as int);
    }
    let days: i64 = before_year + before_month + (c.day as i64 - 1) - 719162;
    days * 86400 + (c.hour as i64 * 3600 + c.minute as i64 * 60 + c.second as i64)
}

} // verus!
