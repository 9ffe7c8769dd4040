//! The values that a host passes as SQL parameters, and their conversion to
//! what the engine binds: dates and times as text in fixed patterns, binary
//! data as a blob.

use vstd::prelude::*;
use crate::calendar::{
    civil_of_timestamp, is_calendar_date, is_clock_time, lemma_civil_of_timestamp,
    lemma_timestamp_range_is_year_range, timestamp_in_range, Civil, CivilDateTime,
};
use crate::chrono_api::{
    format_date, format_datetime, format_time, resolve_local, utc_of_timestamp, zone_resolution,
    DATETIME_FORMAT, DATE_FORMAT, TIME_FORMAT,
};
use crate::error::{plain_error, ErrorKind, StructuredError, StructuredErrorView};
use crate::text::{date_text, datetime_text, time_text};
use crate::zone::{LocalResolution, TimeZone};

verus! {

/// A value in the form in which the engine binds it.
#[derive(Debug, PartialEq, Eq)]
pub enum SqlParam {
    Null,
    Integer(i64),
    /// A floating-point number, as the 64 bits of its IEEE 754 form.
    Real(u64),
    Text(String),
    Blob(Vec<u8>),
}

/// What a `SqlParam` holds, text and bytes as sequences.
pub enum SqlParamView {
    Null,
    Integer(i64),
    Real(u64),
    Text(Seq<char>),
    Blob(Seq<u8>),
}

impl View for SqlParam {
    type V = SqlParamView;

    open spec fn view(&self) -> SqlParamView {
        match self {
            SqlParam::Null => SqlParamView::Null,
            SqlParam::Integer(i) => SqlParamView::Integer(*i),
            SqlParam::Real(bits) => SqlParamView::Real(*bits),
            SqlParam::Text(t) => SqlParamView::Text(t@),
            SqlParam::Blob(b) => SqlParamView::Blob(b@),
        }
    }
}

impl Clone for SqlParam {
    fn clone(&self) -> (copy: SqlParam)
        ensures
            copy@ == self@,
    {
        match self {
            SqlParam::Null => SqlParam::Null,
            SqlParam::Integer(i) => SqlParam::Integer(*i),
            SqlParam::Real(bits) => SqlParam::Real(*bits),
            SqlParam::Text(t) => SqlParam::Text(t.clone()),
            SqlParam::Blob(b) => {
                let bytes = b.clone();
                assert(bytes@ =~= b@);
                SqlParam::Blob(bytes)
            },
        }
    }
}

/// What a conversion gives: the parameter, or the error that it failed with.
pub open spec fn outcome_view(outcome: Result<SqlParam, StructuredError>) -> Result<
    SqlParamView,
    StructuredErrorView,
> {
    match outcome {
        Ok(p) => Ok(p@),
        Err(e) => Err(e@),
    }
}

/// The error of a value that cannot be converted.
pub open spec fn data_error(message: Seq<char>) -> Result<SqlParamView, StructuredErrorView> {
    Err(plain_error(ErrorKind::DataError, message))
}

/// The message for a date that does not exist or lies outside the years that
/// can be stored.
pub open spec fn date_message() -> Seq<char> {
    "date does not exist or is out of range"@
}

/// The message for a time that no clock shows.
pub open spec fn time_message() -> Seq<char> {
    "time of day does not exist"@
}

/// The message for a date and time of which one or the other does not exist.
pub open spec fn datetime_message() -> Seq<char> {
    "date and time does not exist or is out of range"@
}

/// The message for a date and time that the clocks of its zone skipped.
pub open spec fn gap_message() -> Seq<char> {
    "local time does not exist in its time zone"@
}

/// The message for ticks whose date and time lies outside the years that can
/// be stored.
pub open spec fn ticks_message() -> Seq<char> {
    "ticks are out of range"@
}

/// What a date converts to: its text where the day exists in the years
/// `MIN_YEAR` to `MAX_YEAR`, a data error elsewhere.
pub open spec fn date_param(year: int, month: int, day: int) -> Result<
    SqlParamView,
    StructuredErrorView,
> {
    if is_calendar_date(year, month, day) {
        Ok(SqlParamView::Text(date_text(year, month, day)))
    } else {
        data_error(date_message())
    }
}

/// What a time of day converts to: its text where the clock shows it, a data
/// error elsewhere.
pub open spec fn time_param(hour: int, minute: int, second: int) -> Result<
    SqlParamView,
    StructuredErrorView,
> {
    if is_clock_time(hour, minute, second) {
        Ok(SqlParamView::Text(time_text(hour, minute, second)))
    } else {
        data_error(time_message())
    }
}

/// What the ticks of a date convert to: the text of the UTC date of that
/// instant, a data error where it lies outside the years that can be stored.
pub open spec fn date_of_ticks_param(ticks: int) -> Result<SqlParamView, StructuredErrorView> {
    if timestamp_in_range(ticks) {
        let c = civil_of_timestamp(ticks);
        Ok(SqlParamView::Text(date_text(c.year, c.month, c.day)))
    } else {
        data_error(date_message())
    }
}

/// What the ticks of a time convert to: the text of the UTC time of day of
/// that instant.
pub open spec fn time_of_ticks_param(ticks: int) -> Result<SqlParamView, StructuredErrorView> {
    if timestamp_in_range(ticks) {
        let c = civil_of_timestamp(ticks);
        Ok(SqlParamView::Text(time_text(c.hour, c.minute, c.second)))
    } else {
        data_error(ticks_message())
    }
}

/// What the ticks of a date and time convert to: the text of the UTC date and
/// time of that instant.
pub open spec fn instant_param(ticks: int) -> Result<SqlParamView, StructuredErrorView> {
    if timestamp_in_range(ticks) {
        Ok(SqlParamView::Text(datetime_text(civil_of_timestamp(ticks))))
    } else {
        data_error(ticks_message())
    }
}

/// The earlier of two instants.
pub open spec fn earlier(a: i64, b: i64) -> i64 {
    if a <= b {
        a
    } else {
        b
    }
}

/// What a resolved local date and time converts to: a data error where the
/// clocks skipped it, the text of the instant where they showed it once, and
/// of the earlier instant where they showed it twice.
pub open spec fn resolution_param(resolution: LocalResolution) -> Result<
    SqlParamView,
    StructuredErrorView,
> {
    match resolution {
        LocalResolution::Gap => data_error(gap_message()),
        LocalResolution::Single(u) => instant_param(u as int),
        LocalResolution::Ambiguous(a, b) => instant_param(earlier(a, b) as int),
    }
}

/// What a `PyTimestamp` holds: the date and time on the clocks of a zone, and
/// the name of the zone.
pub struct TimestampView {
    pub local: Civil,
    pub zone: Seq<char>,
}

/// What a date and time in a zone converts to: a data error where date or
/// time does not exist, else what its resolution in the zone converts to.
pub open spec fn timestamp_param(t: TimestampView) -> Result<SqlParamView, StructuredErrorView> {
    if t.local.is_representable() {
        resolution_param(zone_resolution(t.zone, t.local.epoch_seconds()))
    } else {
        data_error(datetime_message())
    }
}

/// A calendar date.
#[derive(Clone, Copy, Debug, PartialEq, Eq, Structural)]
pub struct PyDate {
    pub year: i32,
    pub month: u32,
    pub day: u32,
}

impl PyDate {
    pub fn new(year: i32, month: u32, day: u32) -> (date: PyDate)
        ensures
            date == (PyDate { year, month, day }),
    {
        PyDate { year, month, day }
    }

    /// The date that a date object of the host holds.
    pub fn from_host_date(year: i32, month: u8, day: u8) -> (date: PyDate)
        ensures
            date.year == year,
            date.month == month,
            date.day == day,
    {
        PyDate { year, month: month as u32, day: day as u32 }
    }

    /// What the date converts to.
    pub open spec fn param(self) -> Result<SqlParamView, StructuredErrorView> {
        date_param(self.year as int, self.month as int, self.day as int)
    }

    /// Converts the date to the text `YYYY-MM-DD`.
    pub fn to_sql_param(&self) -> (outcome: Result<SqlParam, StructuredError>)
        ensures
            outcome_view(outcome) == self.param(),
    {
        match format_date(self.year, self.month, self.day, DATE_FORMAT) {
            Some(text) => Ok(SqlParam::Text(text)),
            None => Err(
                StructuredError::new(
                    ErrorKind::DataError,
                    "date does not exist or is out of range",
                ),
            ),
        }
    }
}

/// A time of day.
#[derive(Clone, Copy, Debug, PartialEq, Eq, Structural)]
pub struct PyTime {
    pub hour: u32,
    pub minute: u32,
    pub second: u32,
}

impl PyTime {
    pub fn new(hour: u32, minute: u32, second: u32) -> (time: PyTime)
        ensures
            time == (PyTime { hour, minute, second }),
    {
        PyTime { hour, minute, second }
    }

    /// The time that a time object of the host holds.
    pub fn from_host_time(hour: u8, minute: u8, second: u8) -> (time: PyTime)
        ensures
            time.hour == hour,
            time.minute == minute,
            time.second == second,
    {
        PyTime { hour: hour as u32, minute: minute as u32, second: second as u32 }
    }

    /// What the time converts to.
    pub open spec fn param(self) -> Result<SqlParamView, StructuredErrorView> {
        time_param(self.hour as int, self.minute as int, self.second as int)
    }

    /// Converts the time to the text `HH:MM:SS`.
    pub fn to_sql_param(&self) -> (outcome: Result<SqlParam, StructuredError>)
        ensures
            outcome_view(outcome) == self.param(),
    {
        match format_time(self.hour, self.minute, self.second, TIME_FORMAT) {
            Some(text) => Ok(SqlParam::Text(text)),
            None => Err(StructuredError::new(ErrorKind::DataError, "time of day does not exist")),
        }
    }
}

/// An instant as a date: seconds from the epoch.
#[derive(Clone, Copy, Debug, PartialEq, Eq, Structural)]
pub struct PyDateFromTicks {
    pub ticks: i64,
}

impl PyDateFromTicks {
    pub fn new(ticks: i64) -> (date: PyDateFromTicks)
        ensures
            date.ticks == ticks,
    {
        PyDateFromTicks { ticks }
    }

    /// The ticks that a date object of the host gave when it was asked for its
    /// timestamp; an interface error where the host gave none.
    pub fn from_host_date_ticks(timestamp: Option<i64>) -> (outcome: Result<
        PyDateFromTicks,
        StructuredError,
    >)
        ensures
            outcome is Ok <==> timestamp is Some,
            outcome matches Ok(d) ==> Some(d.ticks) == timestamp,
            outcome matches Err(e) ==> Err::<i64, StructuredErrorView>(e@) == host_ticks(timestamp),
    {
        match ticks_of_host(timestamp) {
            Ok(ticks) => Ok(PyDateFromTicks { ticks }),
            Err(e) => Err(e),
        }
    }

    /// Converts to the text `YYYY-MM-DD` of the UTC date of the instant.
    pub fn to_sql_param(&self) -> (outcome: Result<SqlParam, StructuredError>)
        ensures
            outcome_view(outcome) == date_of_ticks_param(self.ticks as int),
    {
        match utc_of_timestamp(self.ticks) {
            Some(c) => {
                proof {
                    lemma_civil_of_timestamp(c@, self.ticks as int);
                    lemma_timestamp_range_is_year_range(c@);
                }
                PyDate::new(c.year, c.month, c.day).to_sql_param()
            },
            None => Err(
                StructuredError::new(
                    ErrorKind::DataError,
                    "date does not exist or is out of range",
                ),
            ),
        }
    }
}

/// An instant as a time of day: seconds from the epoch.
#[derive(Clone, Copy, Debug, PartialEq, Eq, Structural)]
pub struct PyTimeFromTicks {
    pub ticks: i64,
}

impl PyTimeFromTicks {
    pub fn new(ticks: i64) -> (time: PyTimeFromTicks)
        ensures
            time.ticks == ticks,
    {
        PyTimeFromTicks { ticks }
    }

    /// The ticks that a time object of the host gave when it was asked for its
    /// timestamp; an interface error where the host gave none.
    pub fn from_host_time_ticks(timestamp: Option<i64>) -> (outcome: Result<
        PyTimeFromTicks,
        StructuredError,
    >)
        ensures
            outcome is Ok <==> timestamp is Some,
            outcome matches Ok(d) ==> Some(d.ticks) == timestamp,
            outcome matches Err(e) ==> Err::<i64, StructuredErrorView>(e@) == host_ticks(timestamp),
    {
        match ticks_of_host(timestamp) {
            Ok(ticks) => Ok(PyTimeFromTicks { ticks }),
            Err(e) => Err(e),
        }
    }

    /// Converts to the text `HH:MM:SS` of the UTC time of day of the instant.
    pub fn to_sql_param(&self) -> (outcome: Result<SqlParam, StructuredError>)
        ensures
            outcome_view(outcome) == time_of_ticks_param(self.ticks as int),
    {
        match utc_of_timestamp(self.ticks) {
            Some(c) => {
                proof {
                    lemma_civil_of_timestamp(c@, self.ticks as int);
                }
                PyTime::new(c.hour, c.minute, c.second).to_sql_param()
            },
            None => Err(StructuredError::new(ErrorKind::DataError, "ticks are out of range")),
        }
    }
}

/// An instant as a date and time: seconds from the epoch.
#[derive(Clone, Copy, Debug, PartialEq, Eq, Structural)]
pub struct PyTimestampFromTicks {
    pub ticks: i64,
}

impl PyTimestampFromTicks {
    pub fn new(ticks: i64) -> (timestamp: PyTimestampFromTicks)
        ensures
            timestamp.ticks == ticks,
    {
        PyTimestampFromTicks { ticks }
    }

    /// The ticks that a date and time object of the host gave when it was asked
    /// for its timestamp; an interface error where the host gave none.
    pub fn from_host_datetime_ticks(timestamp: Option<i64>) -> (outcome: Result<
        PyTimestampFromTicks,
        StructuredError,
    >)
        ensures
            outcome is Ok <==> timestamp is Some,
            outcome matches Ok(d) ==> Some(d.ticks) == timestamp,
            outcome matches Err(e) ==> Err::<i64, StructuredErrorView>(e@) == host_ticks(timestamp),
    {
        match ticks_of_host(timestamp) {
            Ok(ticks) => Ok(PyTimestampFromTicks { ticks }),
            Err(e) => Err(e),
        }
    }

    /// Converts to the text `YYYY-MM-DD HH:MM:SS` of the UTC date and time of
    /// the instant.
    pub fn to_sql_param(&self) -> (outcome: Result<SqlParam, StructuredError>)
        ensures
            outcome_view(outcome) == instant_param(self.ticks as int),
    {
        match utc_of_timestamp(self.ticks) {
            Some(c) => {
                proof {
                    lemma_civil_of_timestamp(c@, self.ticks as int);
                    lemma_timestamp_range_is_year_range(c@);
                }
                match format_datetime(c, DATETIME_FORMAT) {
                    Some(text) => Ok(SqlParam::Text(text)),
                    None => Err(
                        StructuredError::new(ErrorKind::DataError, "ticks are out of range"),
                    ),
                }
            },
            None => Err(StructuredError::new(ErrorKind::DataError, "ticks are out of range")),
        }
    }
}

/// What the host's answer to a request for a timestamp gives: the ticks, or
/// an interface error where the host had no answer.
pub open spec fn host_ticks(timestamp: Option<i64>) -> Result<i64, StructuredErrorView> {
    match timestamp {
        Some(t) => Ok(t),
        None => Err(
            plain_error(
                ErrorKind::InterfaceError,
                "could not get a timestamp from the host object"@,
            ),
        ),
    }
}

/// The ticks in the host's answer to a request for a timestamp.
pub fn ticks_of_host(timestamp: Option<i64>) -> (outcome: Result<i64, StructuredError>)
    ensures
        outcome is Ok <==> timestamp is Some,
        outcome matches Ok(t) ==> Some(t) == timestamp,
        outcome matches Err(e) ==> Err::<i64, StructuredErrorView>(e@) == host_ticks(timestamp),
{
    match timestamp {
        Some(t) => Ok(t),
        None => Err(
            StructuredError::new(
                ErrorKind::InterfaceError,
                "could not get a timestamp from the host object",
            ),
        ),
    }
}

/// A date and time on the clocks of a time zone.
#[derive(Debug)]
pub struct PyTimestamp {
    pub year: i32,
    pub month: u32,
    pub day: u32,
    pub hour: u32,
    pub minute: u32,
    pub second: u32,
    pub tzinfo: TimeZone,
}

impl View for PyTimestamp {
    type V = TimestampView;

    open spec fn view(&self) -> TimestampView {
        TimestampView {
            local: Civil {
                year: self.year as int,
                month: self.month as int,
                day: self.day as int,
                hour: self.hour as int,
                minute: self.minute as int,
                second: self.second as int,
            },
            zone: self.tzinfo@,
        }
    }
}

impl Clone for PyTimestamp {
    fn clone(&self) -> (copy: PyTimestamp)
        ensures
            copy@ == self@,
    {
        PyTimestamp {
            year: self.year,
            month: self.month,
            day: self.day,
            hour: self.hour,
            minute: self.minute,
            second: self.second,
            tzinfo: self.tzinfo.clone(),
        }
    }
}

impl PyTimestamp {
    pub fn new(
        year: i32,
        month: u32,
        day: u32,
        hour: u32,
        minute: u32,
        second: u32,
        tzinfo: TimeZone,
    ) -> (timestamp: PyTimestamp)
        ensures
            timestamp.year == year,
            timestamp.month == month,
            timestamp.day == day,
            timestamp.hour == hour,
            timestamp.minute == minute,
            timestamp.second == second,
            timestamp.tzinfo == tzinfo,
    {
        PyTimestamp { year, month, day, hour, minute, second, tzinfo }
    }

    /// The date and time that a date and time object of the host holds. Where
    /// the object names no time zone, it is taken to be in UTC.
    pub fn from_host_datetime(
        year: i32,
        month: u8,
        day: u8,
        hour: u8,
        minute: u8,
        second: u8,
        tzinfo: Option<TimeZone>,
    ) -> (timestamp: PyTimestamp)
        ensures
            timestamp.year == year,
            timestamp.month == month,
            timestamp.day == day,
            timestamp.hour == hour,
            timestamp.minute == minute,
            timestamp.second == second,
            timestamp.tzinfo@ == (match tzinfo {
                Some(zone) => zone@,
                None => "UTC"@,
            }),
    {
        let zone = match tzinfo {
            Some(zone) => zone,
            None => TimeZone::utc(),
        };
        PyTimestamp {
            year,
            month: month as u32,
            day: day as u32,
            hour: hour as u32,
            minute: minute as u32,
            second: second as u32,
            tzinfo: zone,
        }
    }

    /// Converts to the text `YYYY-MM-DD HH:MM:SS` of the UTC date and time of
    /// the instant at which the clocks of the zone showed this date and time.
    /// In the zone UTC that is this date and time itself.
    pub fn to_sql_param(&self) -> (outcome: Result<SqlParam, StructuredError>)
        ensures
            outcome_view(outcome) == timestamp_param(self@),
            self@.zone == "UTC"@ && self@.local.is_representable() ==> outcome_view(outcome) == Ok::<
                SqlParamView,
                StructuredErrorView,
            >(SqlParamView::Text(datetime_text(self@.local))),
    {
        let local = CivilDateTime {
            year: self.year,
            month: self.month,
            day: self.day,
            hour: self.hour,
            minute: self.minute,
            second: self.second,
        };
        match resolve_local(self.tzinfo.name(), local) {
            Some(resolution) => {
                proof {
                    if self@.zone == "UTC"@ {
                        lemma_civil_of_timestamp(local@, local@.epoch_seconds());
                        lemma_timestamp_range_is_year_range(local@);
                    }
                }
                param_of_resolution(resolution)
            },
            None => Err(
                StructuredError::new(
                    ErrorKind::DataError,
                    "date and time does not exist or is out of range",
                ),
            ),
        }
    }
}

/// Converts what a local date and time resolved to: the text of the instant,
/// of the earlier one where there are two, and a data error where there is
/// none.
pub fn param_of_resolution(resolution: LocalResolution) -> (outcome: Result<
    SqlParam,
    StructuredError,
>)
    ensures
        outcome_view(outcome) == resolution_param(resolution),
{
    match resolution {
        LocalResolution::Gap => Err(
            StructuredError::new(
                ErrorKind::DataError,
                "local time does not exist in its time zone",
            ),
        ),
        LocalResolution::Single(u) => PyTimestampFromTicks::new(u).to_sql_param(),
        LocalResolution::Ambiguous(a, b) => {
            let first: i64 = if a <= b {
                a
            } else {
                b
            };
            PyTimestampFromTicks::new(first).to_sql_param()
        },
    }
}

/// Binary data.
#[derive(Debug, PartialEq, Eq)]
pub struct PyBinary {
    pub value: Vec<u8>,
}

impl View for PyBinary {
    type V = Seq<u8>;

    open spec fn view(&self) -> Seq<u8> {
        self.value@
    }
}

impl Clone for PyBinary {
    fn clone(&self) -> (copy: PyBinary)
        ensures
            copy@ == self@,
    {
        let bytes = self.value.clone();
        assert(bytes@ =~= self.value@);
        PyBinary { value: bytes }
    }
}

impl PyBinary {
    pub fn new(value: Vec<u8>) -> (binary: PyBinary)
        ensures
            binary@ == value@,
    {
        PyBinary { value }
    }

    /// Converts to a blob of the same bytes.
    pub fn to_sql_param(&self) -> (outcome: Result<SqlParam, StructuredError>)
        ensures
            outcome_view(outcome) == Ok::<SqlParamView, StructuredErrorView>(
                SqlParamView::Blob(self@),
            ),
    {
        let bytes = self.value.clone();
        assert(bytes@ =~= self.value@);
        Ok(SqlParam::Blob(bytes))
    }
}

/// The mark of a column of text.
#[derive(Clone, Copy, Debug, PartialEq, Eq, Structural)]
pub struct PySqliteString;

/// The mark of a column of binary data.
#[derive(Clone, Copy, Debug, PartialEq, Eq, Structural)]
pub struct PySqliteBinary;

/// The mark of a column of numbers.
#[derive(Clone, Copy, Debug, PartialEq, Eq, Structural)]
pub struct PySqliteNumber;

/// The mark of a column of dates and times.
#[derive(Clone, Copy, Debug, PartialEq, Eq, Structural)]
pub struct PySqliteDateTime;

/// The mark of a column of row identifiers.
#[derive(Clone, Copy, Debug, PartialEq, Eq, Structural)]
pub struct PySqliteRowId;

} // verus!
