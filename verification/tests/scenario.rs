use rusqlite::types::Value;
use rusqlite::Connection;
use sqlcipher_py::connection::{connect, PyConnection};
use sqlcipher_py::cursor::{Column, ExecuteAction, ExecuteEvent, PyCursor, StatementOutcome};
use sqlcipher_py::error::{EngineFailure, ErrorKind, StructuredError};
use sqlcipher_py::params::Param;
use sqlcipher_py::types::{PyBinary, PyDate, PyTime, PyTimestamp, SqlParam};
use sqlcipher_py::zone::TimeZone;

fn failure_of(error: rusqlite::Error) -> EngineFailure {
    match error {
        rusqlite::Error::SqliteFailure(code, message) => {
            EngineFailure::Coded { extended_code: code.extended_code, message }
        }
        rusqlite::Error::SqlInputError { error, msg, .. } => {
            EngineFailure::Coded { extended_code: error.extended_code, message: Some(msg) }
        }
        _ => EngineFailure::Uncoded,
    }
}

fn value_of(param: SqlParam) -> Value {
    match param {
        SqlParam::Null => Value::Null,
        SqlParam::Integer(i) => Value::Integer(i),
        SqlParam::Real(bits) => Value::Real(f64::from_bits(bits)),
        SqlParam::Text(text) => Value::Text(text),
        SqlParam::Blob(bytes) => Value::Blob(bytes),
    }
}

/// An engine session with the connection that stands for it.
struct Session {
    engine: Connection,
    connection: PyConnection,
}

fn open(path: &str) -> Result<Session, StructuredError> {
    match Connection::open(path) {
        Ok(engine) => Ok(Session { engine, connection: connect(Ok(()))? }),
        Err(e) => Err(connect(Err(failure_of(e))).unwrap_err()),
    }
}

fn run(
    engine: &Connection,
    statement: &mut rusqlite::Statement<'_>,
    values: Vec<SqlParam>,
) -> Result<StatementOutcome, rusqlite::Error> {
    let columns: Vec<Column> = statement
        .column_names()
        .into_iter()
        .map(|name| Column { name: String::from(name), type_code: String::new() })
        .collect();
    let bound: Vec<Value> = values.into_iter().map(value_of).collect();
    if columns.is_empty() {
        let before = engine.total_changes();
        let changed = statement.execute(rusqlite::params_from_iter(bound))?;
        let rows = if engine.total_changes() != before { Some(changed as u64) } else { None };
        Ok(StatementOutcome { columns, rows })
    } else {
        let mut rows = statement.query(rusqlite::params_from_iter(bound))?;
        let mut count: u64 = 0;
        while rows.next()?.is_some() {
            count += 1;
        }
        Ok(StatementOutcome { columns, rows: Some(count) })
    }
}

fn execute(
    cursor: &mut PyCursor,
    session: Option<&Session>,
    sql: &str,
    params: &Vec<Param>,
) -> Result<(), StructuredError> {
    let mut statement = None;
    let mut action = cursor.advance(ExecuteEvent::Called, params);
    loop {
        let event = match action {
            ExecuteAction::Return(result) => return result,
            ExecuteAction::ResolveConnection => ExecuteEvent::ConnectionFound(
                PyConnection::access(session.map(|s| &s.connection)),
            ),
            ExecuteAction::Prepare => match session.unwrap().engine.prepare(sql) {
                Ok(prepared) => {
                    statement = Some(prepared);
                    ExecuteEvent::Prepared(Ok(()))
                }
                Err(e) => ExecuteEvent::Prepared(Err(failure_of(e))),
            },
            ExecuteAction::Run(values) => ExecuteEvent::Ran(
                run(&session.unwrap().engine, statement.as_mut().unwrap(), values)
                    .map_err(failure_of),
            ),
        };
        action = cursor.advance(event, params);
    }
}

fn stored_text(session: &Session, sql: &str) -> String {
    session.engine.query_row(sql, [], |row| row.get::<_, String>(0)).unwrap()
}

const CREATE: &str = "CREATE TABLE t(id INTEGER PRIMARY KEY, d TEXT)";

#[test]
fn a_date_is_stored_as_its_text() {
    let session = open(":memory:").unwrap();
    let mut cursor = session.connection.cursor(false).unwrap();

    assert_eq!(execute(&mut cursor, Some(&session), CREATE, &Vec::new()), Ok(()));
    assert_eq!(cursor.rowcount(), 0);
    assert_eq!(cursor.description(), &None);

    let params = vec![Param::Date(PyDate::new(2024, 1, 5))];
    assert_eq!(execute(&mut cursor, Some(&session), "INSERT INTO t(d) VALUES(?)", &params), Ok(()));
    assert_eq!(cursor.rowcount(), 1);
    assert_eq!(stored_text(&session, "SELECT d FROM t"), "2024-01-05");
    assert_eq!(stored_text(&session, "SELECT typeof(d) FROM t"), "text");
}

#[test]
fn the_row_count_outlasts_a_statement_that_counts_none() {
    let session = open(":memory:").unwrap();
    let mut cursor = session.connection.cursor(false).unwrap();
    execute(&mut cursor, Some(&session), CREATE, &Vec::new()).unwrap();
    let insert = "INSERT INTO t(d) VALUES(?), (?)";
    let params = vec![Param::Null, Param::Text(String::from("x"))];
    execute(&mut cursor, Some(&session), insert, &params).unwrap();
    assert_eq!(cursor.rowcount(), 2);
    execute(&mut cursor, Some(&session), "CREATE TABLE u(x)", &Vec::new()).unwrap();
    assert_eq!(cursor.rowcount(), 2);
    assert_eq!(cursor.description(), &None);
}

#[test]
fn a_query_leaves_its_description_and_its_rows() {
    let session = open(":memory:").unwrap();
    let mut cursor = session.connection.cursor(true).unwrap();
    execute(&mut cursor, Some(&session), CREATE, &Vec::new()).unwrap();
    for day in 1..=3 {
        let params = vec![Param::Date(PyDate::new(2024, 1, day))];
        execute(&mut cursor, Some(&session), "INSERT INTO t(d) VALUES(?)", &params).unwrap();
    }
    let params = vec![Param::Date(PyDate::new(2024, 1, 2))];
    let query = "SELECT id, d FROM t WHERE d >= ? ORDER BY id";
    assert_eq!(execute(&mut cursor, Some(&session), query, &params), Ok(()));
    assert_eq!(cursor.rowcount(), 2);
    let description = cursor.description().as_ref().unwrap();
    let names: Vec<&str> = description.iter().map(|d| d.name.as_str()).collect();
    assert_eq!(names, vec!["id", "d"]);
    assert!(description.iter().all(|d| d.display_size.is_none() && d.null_ok.is_none()));
}

#[test]
fn every_adapter_is_stored_in_its_form() {
    let session = open(":memory:").unwrap();
    let mut cursor = session.connection.cursor(false).unwrap();
    execute(&mut cursor, Some(&session), "CREATE TABLE v(a, b, c)", &Vec::new()).unwrap();
    let bytes: Vec<u8> = vec![0, 1, 0, 255, 0];
    let params = vec![
        Param::Time(PyTime::new(7, 8, 9)),
        Param::Timestamp(PyTimestamp::new(
            2024,
            7,
            1,
            12,
            0,
            0,
            TimeZone::from_name("Europe/Berlin").unwrap(),
        )),
        Param::Binary(PyBinary::new(bytes.clone())),
    ];
    execute(&mut cursor, Some(&session), "INSERT INTO v VALUES(?, ?, ?)", &params).unwrap();
    assert_eq!(stored_text(&session, "SELECT a FROM v"), "07:08:09");
    assert_eq!(stored_text(&session, "SELECT b FROM v"), "2024-07-01 10:00:00");
    assert_eq!(stored_text(&session, "SELECT typeof(c) FROM v"), "blob");
    let stored: Vec<u8> =
        session.engine.query_row("SELECT c FROM v", [], |row| row.get(0)).unwrap();
    assert_eq!(stored, bytes);
}

#[test]
fn a_violated_constraint_of_the_engine_is_an_integrity_error() {
    let session = open(":memory:").unwrap();
    let mut cursor = session.connection.cursor(false).unwrap();
    execute(&mut cursor, Some(&session), CREATE, &Vec::new()).unwrap();
    let insert = "INSERT INTO t(id, d) VALUES(?, ?)";
    let params = vec![Param::Integer(1), Param::Date(PyDate::new(2024, 1, 5))];
    execute(&mut cursor, Some(&session), insert, &params).unwrap();
    let e = execute(&mut cursor, Some(&session), insert, &params).unwrap_err();
    assert_eq!(e.kind, ErrorKind::IntegrityError);
    assert_eq!(e.code, Some(1555));
    assert_eq!(
        e.message,
        "encountered error code 1555 while executing query: UNIQUE constraint failed: t.id"
    );
    assert_eq!(cursor.rowcount(), 1);
}

#[test]
fn sql_that_the_engine_cannot_read_is_a_database_error() {
    let session = open(":memory:").unwrap();
    let mut cursor = session.connection.cursor(false).unwrap();
    let e = execute(&mut cursor, Some(&session), "SELEC 1", &Vec::new()).unwrap_err();
    assert_eq!(e.kind, ErrorKind::DatabaseError);
    assert_eq!(e.code, Some(1));
    assert_eq!(
        e.message,
        "encountered error code 1 while preparing query: near \"SELEC\": syntax error"
    );
    assert!(e.is_a(ErrorKind::Error));
}

#[test]
fn a_date_that_does_not_exist_never_reaches_the_engine() {
    let session = open(":memory:").unwrap();
    let mut cursor = session.connection.cursor(false).unwrap();
    execute(&mut cursor, Some(&session), CREATE, &Vec::new()).unwrap();
    let params = vec![Param::Date(PyDate::new(2024, 2, 30))];
    let e = execute(&mut cursor, Some(&session), "INSERT INTO t(d) VALUES(?)", &params)
        .unwrap_err();
    assert_eq!(e.kind, ErrorKind::DataError);
    let count: i64 =
        session.engine.query_row("SELECT count(*) FROM t", [], |row| row.get(0)).unwrap();
    assert_eq!(count, 0);
}

#[test]
fn a_cursor_outlives_its_connection_without_harm() {
    let mut session = open(":memory:").unwrap();
    let mut cursor = session.connection.cursor(false).unwrap();
    execute(&mut cursor, Some(&session), CREATE, &Vec::new()).unwrap();

    session.connection.close(Ok(())).unwrap();
    let e = execute(&mut cursor, Some(&session), "SELECT 1", &Vec::new()).unwrap_err();
    assert_eq!(e.kind, ErrorKind::InterfaceError);
    assert_eq!(e.message, "connection is closed");

    drop(session);
    let e = execute(&mut cursor, None, "SELECT 1", &Vec::new()).unwrap_err();
    assert_eq!(e.kind, ErrorKind::InterfaceError);
    assert_eq!(e.message, "could not access connection object");

    cursor.close();
    let e = execute(&mut cursor, None, "SELECT 1", &Vec::new()).unwrap_err();
    assert_eq!(e.message, "cursor is closed");
}

#[test]
fn a_path_that_cannot_be_opened_is_a_database_error() {
    let e = open("/nonexistent-directory/of/no/one/test.db").map(|_| ()).unwrap_err();
    assert!(e.is_a(ErrorKind::DatabaseError));
    assert_eq!(e.code, Some(14));
    assert!(e.message.starts_with("encountered error code 14 while connecting"));
}
