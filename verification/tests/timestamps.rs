use sqlcipher_py::error::{ErrorKind, StructuredError};
use sqlcipher_py::stored::parse_stored_timestamp;
use sqlcipher_py::types::{param_of_resolution, PyTimestamp, PyTimestampFromTicks, SqlParam};
use sqlcipher_py::zone::{LocalResolution, TimeZone};

fn text_of(outcome: Result<SqlParam, StructuredError>) -> String {
    match outcome {
        Ok(SqlParam::Text(text)) => text,
        other => panic!("expected text, got {:?}", other),
    }
}

fn zone(name: &str) -> TimeZone {
    TimeZone::from_name(name).expect("the zone database has this zone")
}

#[test]
fn zones_are_known_by_their_names() {
    assert_eq!(zone("Europe/Berlin").name(), "Europe/Berlin");
    assert_eq!(zone("America/New_York").name(), "America/New_York");
    assert_eq!(TimeZone::utc().name(), "UTC");
    assert_eq!(TimeZone::utc(), zone("UTC"));
    assert_eq!(zone("Asia/Tokyo").clone(), zone("Asia/Tokyo"));
}

#[test]
fn unknown_zones_are_refused() {
    assert_eq!(TimeZone::from_name("Mars/Phobos"), None);
    assert_eq!(TimeZone::from_name(""), None);
    assert_eq!(TimeZone::from_name("utc"), None);
    assert_eq!(TimeZone::from_name("Europe/Berlin "), None);
}

#[test]
fn timestamp_in_utc_is_stored_as_it_stands() {
    let t = PyTimestamp::new(2024, 1, 5, 13, 14, 15, TimeZone::utc());
    assert_eq!(text_of(t.to_sql_param()), "2024-01-05 13:14:15");
    let early = PyTimestamp::new(5, 6, 7, 8, 9, 10, TimeZone::utc());
    assert_eq!(text_of(early.to_sql_param()), "0005-06-07 08:09:10");
}

#[test]
fn timestamp_in_a_zone_is_stored_in_utc() {
    let berlin = PyTimestamp::new(2024, 7, 1, 12, 0, 0, zone("Europe/Berlin"));
    assert_eq!(text_of(berlin.to_sql_param()), "2024-07-01 10:00:00");
    let tokyo = PyTimestamp::new(2024, 1, 1, 0, 30, 0, zone("Asia/Tokyo"));
    assert_eq!(text_of(tokyo.to_sql_param()), "2023-12-31 15:30:00");
    let new_york = PyTimestamp::new(2024, 1, 5, 19, 0, 0, zone("America/New_York"));
    assert_eq!(text_of(new_york.to_sql_param()), "2024-01-06 00:00:00");
}

#[test]
fn ambiguous_local_time_resolves_to_the_earlier_instant() {
    let t = PyTimestamp::new(2024, 11, 3, 1, 30, 0, zone("America/New_York"));
    assert_eq!(text_of(t.to_sql_param()), "2024-11-03 05:30:00");
    let berlin = PyTimestamp::new(2024, 10, 27, 2, 30, 0, zone("Europe/Berlin"));
    assert_eq!(text_of(berlin.to_sql_param()), "2024-10-27 00:30:00");
}

#[test]
fn ambiguous_local_time_resolves_the_same_way_every_time() {
    let t = PyTimestamp::new(2024, 11, 3, 1, 30, 0, zone("America/New_York"));
    let first = t.to_sql_param();
    for _ in 0..20 {
        assert_eq!(t.to_sql_param(), first);
        assert_eq!(t.clone().to_sql_param(), first);
    }
}

#[test]
fn the_earlier_of_two_instants_is_taken_in_either_order() {
    let expected = "2024-11-03 05:30:00";
    let in_order = LocalResolution::Ambiguous(1730611800, 1730615400);
    let reversed = LocalResolution::Ambiguous(1730615400, 1730611800);
    assert_eq!(text_of(param_of_resolution(in_order)), expected);
    assert_eq!(text_of(param_of_resolution(reversed)), expected);
    assert_eq!(text_of(param_of_resolution(LocalResolution::Single(1730615400))), "2024-11-03 06:30:00");
    assert_eq!(
        param_of_resolution(LocalResolution::Single(1719828000)),
        PyTimestampFromTicks::new(1719828000).to_sql_param()
    );
}

#[test]
fn local_time_in_a_gap_is_a_data_error() {
    let t = PyTimestamp::new(2024, 3, 10, 2, 30, 0, zone("America/New_York"));
    let e = t.to_sql_param().unwrap_err();
    assert_eq!(e.kind, ErrorKind::DataError);
    assert_eq!(e.code, None);
    assert_eq!(e.message, "local time does not exist in its time zone");
    let berlin = PyTimestamp::new(2024, 3, 31, 2, 0, 0, zone("Europe/Berlin"));
    assert_eq!(berlin.to_sql_param().unwrap_err().kind, ErrorKind::DataError);
    let gap = param_of_resolution(LocalResolution::Gap).unwrap_err();
    assert_eq!(gap.kind, ErrorKind::DataError);
    assert_eq!(gap.message, "local time does not exist in its time zone");
}

#[test]
fn the_seconds_around_a_gap_convert() {
    let before = PyTimestamp::new(2024, 3, 10, 1, 59, 59, zone("America/New_York"));
    assert_eq!(text_of(before.to_sql_param()), "2024-03-10 06:59:59");
    let after = PyTimestamp::new(2024, 3, 10, 3, 0, 0, zone("America/New_York"));
    assert_eq!(text_of(after.to_sql_param()), "2024-03-10 07:00:00");
}

#[test]
fn timestamp_with_fields_that_do_not_exist_is_a_data_error() {
    let cases: [(i32, u32, u32, u32, u32, u32); 6] = [
        (2024, 13, 1, 0, 0, 0),
        (2024, 2, 30, 0, 0, 0),
        (2024, 1, 1, 24, 0, 0),
        (2024, 1, 1, 0, 60, 0),
        (2024, 1, 1, 0, 0, 60),
        (262143, 1, 1, 0, 0, 0),
    ];
    for (year, month, day, hour, minute, second) in cases {
        for name in ["UTC", "Europe/Berlin"] {
            let t = PyTimestamp::new(year, month, day, hour, minute, second, zone(name));
            let e = t.to_sql_param().unwrap_err();
            assert_eq!(e.kind, ErrorKind::DataError);
            assert_eq!(e.message, "date and time does not exist or is out of range");
        }
    }
}

#[test]
fn timestamp_from_host_without_a_zone_is_in_utc() {
    let t = PyTimestamp::from_host_datetime(2024, 1, 5, 13, 14, 15, None);
    assert_eq!(t.tzinfo, TimeZone::utc());
    assert_eq!((t.year, t.month, t.day, t.hour, t.minute, t.second), (2024, 1, 5, 13, 14, 15));
    assert_eq!(text_of(t.to_sql_param()), "2024-01-05 13:14:15");
}

#[test]
fn timestamp_from_host_keeps_its_zone() {
    let t = PyTimestamp::from_host_datetime(2024, 7, 1, 12, 0, 0, Some(zone("Europe/Berlin")));
    assert_eq!(t.tzinfo, zone("Europe/Berlin"));
    assert_eq!(text_of(t.to_sql_param()), "2024-07-01 10:00:00");
}

#[test]
fn stored_timestamp_reads_back_as_its_instant() {
    let berlin = PyTimestamp::new(2024, 7, 1, 12, 0, 0, zone("Europe/Berlin"));
    let text = text_of(berlin.to_sql_param());
    assert_eq!(parse_stored_timestamp(&text), Some(1719828000));
    let utc = PyTimestamp::new(2015, 5, 15, 0, 0, 0, TimeZone::utc());
    assert_eq!(parse_stored_timestamp(&text_of(utc.to_sql_param())), Some(1431648000));
    let ambiguous = PyTimestamp::new(2024, 11, 3, 1, 30, 0, zone("America/New_York"));
    assert_eq!(parse_stored_timestamp(&text_of(ambiguous.to_sql_param())), Some(1730611800));
}
