use sqlcipher_py::error::ErrorKind;
use sqlcipher_py::params::{bind_params, Param};
use sqlcipher_py::types::{
    PyBinary, PyDate, PyDateFromTicks, PyTime, PyTimeFromTicks, PyTimestamp,
    PyTimestampFromTicks, SqlParam,
};
use sqlcipher_py::zone::TimeZone;

#[test]
fn binary_keeps_its_bytes() {
    let bytes: Vec<u8> = vec![0, 1, 2, 0, 255, 0, 0, 128, 10, 13, 0];
    let binary = PyBinary::new(bytes.clone());
    assert_eq!(binary.value, bytes);
    assert_eq!(binary.to_sql_param(), Ok(SqlParam::Blob(bytes)));
}

#[test]
fn binary_keeps_every_byte_value() {
    let bytes: Vec<u8> = (0..=255u8).chain((0..=255u8).rev()).collect();
    assert_eq!(PyBinary::new(bytes.clone()).to_sql_param(), Ok(SqlParam::Blob(bytes)));
    assert_eq!(PyBinary::new(Vec::new()).to_sql_param(), Ok(SqlParam::Blob(Vec::new())));
    let text_like = b"2024-01-05".to_vec();
    assert_eq!(PyBinary::new(text_like.clone()).to_sql_param(), Ok(SqlParam::Blob(text_like)));
}

#[test]
fn native_values_convert_to_themselves() {
    assert_eq!(Param::Null.to_sql_param(), Ok(SqlParam::Null));
    assert_eq!(Param::Integer(-42).to_sql_param(), Ok(SqlParam::Integer(-42)));
    let bits = 1.5f64.to_bits();
    assert_eq!(Param::Real(bits).to_sql_param(), Ok(SqlParam::Real(bits)));
    assert_eq!(
        Param::Text(String::from("héllo")).to_sql_param(),
        Ok(SqlParam::Text(String::from("héllo")))
    );
    assert_eq!(Param::Blob(vec![0, 9, 0]).to_sql_param(), Ok(SqlParam::Blob(vec![0, 9, 0])));
}

#[test]
fn adapters_convert_as_they_do_alone() {
    assert_eq!(
        Param::Date(PyDate::new(2024, 1, 5)).to_sql_param(),
        Ok(SqlParam::Text(String::from("2024-01-05")))
    );
    assert_eq!(
        Param::Time(PyTime::new(1, 2, 3)).to_sql_param(),
        Ok(SqlParam::Text(String::from("01:02:03")))
    );
    assert_eq!(
        Param::Timestamp(PyTimestamp::new(2024, 1, 5, 1, 2, 3, TimeZone::utc())).to_sql_param(),
        Ok(SqlParam::Text(String::from("2024-01-05 01:02:03")))
    );
    assert_eq!(
        Param::DateFromTicks(PyDateFromTicks::new(0)).to_sql_param(),
        Ok(SqlParam::Text(String::from("1970-01-01")))
    );
    assert_eq!(
        Param::TimeFromTicks(PyTimeFromTicks::new(61)).to_sql_param(),
        Ok(SqlParam::Text(String::from("00:01:01")))
    );
    assert_eq!(
        Param::TimestampFromTicks(PyTimestampFromTicks::new(61)).to_sql_param(),
        Ok(SqlParam::Text(String::from("1970-01-01 00:01:01")))
    );
    assert_eq!(
        Param::Binary(PyBinary::new(vec![0, 0])).to_sql_param(),
        Ok(SqlParam::Blob(vec![0, 0]))
    );
}

#[test]
fn unrecognized_shape_is_a_programming_error() {
    let e = Param::Unrecognized.to_sql_param().unwrap_err();
    assert_eq!(e.kind, ErrorKind::ProgrammingError);
    assert_eq!(e.code, None);
    assert_eq!(e.message, "parameter is of a type that cannot be bound");
}

#[test]
fn parameters_are_bound_in_the_order_supplied() {
    let params = vec![
        Param::Integer(1),
        Param::Date(PyDate::new(2024, 1, 5)),
        Param::Null,
        Param::Text(String::from("x")),
        Param::Binary(PyBinary::new(vec![0])),
        Param::Time(PyTime::new(23, 0, 0)),
    ];
    assert_eq!(
        bind_params(&params),
        Ok(vec![
            SqlParam::Integer(1),
            SqlParam::Text(String::from("2024-01-05")),
            SqlParam::Null,
            SqlParam::Text(String::from("x")),
            SqlParam::Blob(vec![0]),
            SqlParam::Text(String::from("23:00:00")),
        ])
    );
}

#[test]
fn no_parameters_bind_to_none() {
    assert_eq!(bind_params(&Vec::new()), Ok(Vec::new()));
}

#[test]
fn the_first_parameter_that_fails_gives_the_error() {
    let params = vec![
        Param::Integer(1),
        Param::Time(PyTime::new(24, 0, 0)),
        Param::Unrecognized,
        Param::Date(PyDate::new(2024, 2, 30)),
    ];
    let e = bind_params(&params).unwrap_err();
    assert_eq!(e.kind, ErrorKind::DataError);
    assert_eq!(e.message, "time of day does not exist");

    let params = vec![
        Param::Unrecognized,
        Param::Time(PyTime::new(24, 0, 0)),
    ];
    assert_eq!(bind_params(&params).unwrap_err().kind, ErrorKind::ProgrammingError);

    let params = vec![Param::Null, Param::Null, Param::Date(PyDate::new(2024, 2, 30))];
    let e = bind_params(&params).unwrap_err();
    assert_eq!(e.kind, ErrorKind::DataError);
    assert_eq!(e.message, "date does not exist or is out of range");
}
