use sqlcipher_py::error::{ErrorKind, StructuredError};
use sqlcipher_py::types::{
    PyDate, PyDateFromTicks, PyTime, PyTimeFromTicks, PyTimestampFromTicks, SqlParam,
};

fn text_of(outcome: Result<SqlParam, StructuredError>) -> String {
    match outcome {
        Ok(SqlParam::Text(text)) => text,
        other => panic!("expected text, got {:?}", other),
    }
}

#[test]
fn ticks_zero_is_the_epoch() {
    assert_eq!(text_of(PyDateFromTicks::new(0).to_sql_param()), "1970-01-01");
    assert_eq!(text_of(PyTimeFromTicks::new(0).to_sql_param()), "00:00:00");
    assert_eq!(text_of(PyTimestampFromTicks::new(0).to_sql_param()), "1970-01-01 00:00:00");
}

#[test]
fn ticks_before_the_epoch_count_backwards() {
    assert_eq!(text_of(PyDateFromTicks::new(-1).to_sql_param()), "1969-12-31");
    assert_eq!(text_of(PyTimeFromTicks::new(-1).to_sql_param()), "23:59:59");
    assert_eq!(text_of(PyTimestampFromTicks::new(-1).to_sql_param()), "1969-12-31 23:59:59");
    assert_eq!(
        text_of(PyTimestampFromTicks::new(-62135596800).to_sql_param()),
        "0001-01-01 00:00:00"
    );
}

#[test]
fn ticks_give_the_utc_date_and_time() {
    assert_eq!(text_of(PyDateFromTicks::new(1704412800).to_sql_param()), "2024-01-05");
    assert_eq!(text_of(PyDateFromTicks::new(1704412800 + 86399).to_sql_param()), "2024-01-05");
    assert_eq!(text_of(PyDateFromTicks::new(1704412800 + 86400).to_sql_param()), "2024-01-06");
    assert_eq!(
        text_of(PyTimestampFromTicks::new(1431648000).to_sql_param()),
        "2015-05-15 00:00:00"
    );
    assert_eq!(
        text_of(PyTimestampFromTicks::new(951868799).to_sql_param()),
        "2000-02-29 23:59:59"
    );
    assert_eq!(text_of(PyTimeFromTicks::new(951868799).to_sql_param()), "23:59:59");
    assert_eq!(
        text_of(PyTimestampFromTicks::new(253402300799).to_sql_param()),
        "9999-12-31 23:59:59"
    );
    assert_eq!(
        text_of(PyTimestampFromTicks::new(253402300800).to_sql_param()),
        "+10000-01-01 00:00:00"
    );
}

#[test]
fn ticks_end_where_the_date_library_ends() {
    assert_eq!(
        text_of(PyTimestampFromTicks::new(8210266876799).to_sql_param()),
        "+262142-12-31 23:59:59"
    );
    assert_eq!(
        text_of(PyTimestampFromTicks::new(-8334601228800).to_sql_param()),
        "-262143-01-01 00:00:00"
    );
    assert_eq!(text_of(PyDateFromTicks::new(8210266876799).to_sql_param()), "+262142-12-31");
    assert_eq!(text_of(PyDateFromTicks::new(-8334601228800).to_sql_param()), "-262143-01-01");
    for ticks in [8210266876800, -8334601228801, i64::MAX, i64::MIN] {
        let date = PyDateFromTicks::new(ticks).to_sql_param().unwrap_err();
        assert_eq!(date.kind, ErrorKind::DataError);
        assert_eq!(date.message, "date does not exist or is out of range");
        let time = PyTimeFromTicks::new(ticks).to_sql_param().unwrap_err();
        assert_eq!(time.kind, ErrorKind::DataError);
        assert_eq!(time.message, "ticks are out of range");
        let both = PyTimestampFromTicks::new(ticks).to_sql_param().unwrap_err();
        assert_eq!(both.kind, ErrorKind::DataError);
        assert_eq!(both.message, "ticks are out of range");
    }
}

#[test]
fn date_from_ticks_converts_as_the_date_of_that_day() {
    let cases: [(i64, i32, u32, u32); 6] = [
        (0, 1970, 1, 1),
        (1704412800, 2024, 1, 5),
        (951868799, 2000, 2, 29),
        (-1, 1969, 12, 31),
        (253402300800, 10000, 1, 1),
        (-62135596801, 0, 12, 31),
    ];
    for (ticks, year, month, day) in cases {
        assert_eq!(
            PyDateFromTicks::new(ticks).to_sql_param(),
            PyDate::new(year, month, day).to_sql_param()
        );
    }
    // Past the last day that can be stored both fail, and with one error.
    assert_eq!(
        PyDateFromTicks::new(8210266876800).to_sql_param(),
        PyDate::new(262143, 1, 1).to_sql_param()
    );
}

#[test]
fn time_from_ticks_converts_as_the_time_of_that_second() {
    assert_eq!(
        PyTimeFromTicks::new(1704412800 + 3600 * 13 + 60 * 14 + 15).to_sql_param(),
        PyTime::new(13, 14, 15).to_sql_param()
    );
}

#[test]
fn ticks_from_the_host_are_kept() {
    assert_eq!(PyDateFromTicks::from_host_date_ticks(Some(42)), Ok(PyDateFromTicks::new(42)));
    assert_eq!(PyTimeFromTicks::from_host_time_ticks(Some(-7)), Ok(PyTimeFromTicks::new(-7)));
    assert_eq!(
        PyTimestampFromTicks::from_host_datetime_ticks(Some(i64::MAX)),
        Ok(PyTimestampFromTicks::new(i64::MAX))
    );
}

#[test]
fn a_host_without_a_timestamp_is_an_interface_error() {
    let date = PyDateFromTicks::from_host_date_ticks(None).unwrap_err();
    let time = PyTimeFromTicks::from_host_time_ticks(None).unwrap_err();
    let both = PyTimestampFromTicks::from_host_datetime_ticks(None).unwrap_err();
    for e in [date, time, both] {
        assert_eq!(e.kind, ErrorKind::InterfaceError);
        assert_eq!(e.code, None);
        assert_eq!(e.message, "could not get a timestamp from the host object");
    }
}
