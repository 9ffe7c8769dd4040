use sqlcipher_py::error::{
    classify_code, map_engine_failure, EngineFailure, ErrorKind, Operation, StructuredError,
};
use sqlcipher_py::text::decimal_string;
use sqlcipher_py::{APILEVEL, PARAMSTYLE, THREADSAFETY};

const KINDS: [ErrorKind; 9] = [
    ErrorKind::Warning,
    ErrorKind::Error,
    ErrorKind::InterfaceError,
    ErrorKind::DatabaseError,
    ErrorKind::DataError,
    ErrorKind::OperationalError,
    ErrorKind::IntegrityError,
    ErrorKind::ProgrammingError,
    ErrorKind::NotSupportedError,
];

#[test]
fn module_constants() {
    assert_eq!(APILEVEL, "2.0");
    assert_eq!(THREADSAFETY, 0);
    assert_eq!(PARAMSTYLE, "qmark");
}

#[test]
fn each_kind_has_its_parent() {
    assert_eq!(ErrorKind::Warning.parent(), None);
    assert_eq!(ErrorKind::Error.parent(), None);
    assert_eq!(ErrorKind::InterfaceError.parent(), Some(ErrorKind::Error));
    assert_eq!(ErrorKind::DatabaseError.parent(), Some(ErrorKind::Error));
    for leaf in &KINDS[4..] {
        assert_eq!(leaf.parent(), Some(ErrorKind::DatabaseError));
    }
}

#[test]
fn each_kind_has_its_name() {
    let names = [
        "Warning",
        "Error",
        "InterfaceError",
        "DatabaseError",
        "DataError",
        "OperationalError",
        "IntegrityError",
        "ProgrammingError",
        "NotSupportedError",
    ];
    for (kind, name) in KINDS.iter().zip(names) {
        assert_eq!(kind.name(), name);
    }
}

#[test]
fn descent_follows_the_tree() {
    for kind in KINDS {
        assert!(kind.is_a(kind));
        assert_eq!(kind.is_a(ErrorKind::Error), kind != ErrorKind::Warning);
        assert_eq!(kind.is_a(ErrorKind::Warning), kind == ErrorKind::Warning);
    }
    for leaf in &KINDS[4..] {
        assert!(leaf.is_a(ErrorKind::DatabaseError));
        assert!(!leaf.is_a(ErrorKind::InterfaceError));
        assert!(!ErrorKind::DatabaseError.is_a(*leaf));
    }
    assert!(!ErrorKind::InterfaceError.is_a(ErrorKind::DatabaseError));
    assert!(!ErrorKind::Error.is_a(ErrorKind::DatabaseError));
    assert!(!ErrorKind::IntegrityError.is_a(ErrorKind::DataError));
}

#[test]
fn descent_is_an_order() {
    for a in KINDS {
        for b in KINDS {
            if a.is_a(b) && b.is_a(a) {
                assert_eq!(a, b);
            }
            for c in KINDS {
                if a.is_a(b) && b.is_a(c) {
                    assert!(a.is_a(c));
                }
            }
        }
    }
}

#[test]
fn an_error_is_of_its_kind_and_of_the_kinds_above() {
    let e = StructuredError::new(ErrorKind::IntegrityError, "no");
    assert_eq!(e.kind, ErrorKind::IntegrityError);
    assert_eq!(e.code, None);
    assert_eq!(e.message, "no");
    assert_eq!(e.message_text(), "no");
    assert!(e.is_a(ErrorKind::IntegrityError));
    assert!(e.is_a(ErrorKind::DatabaseError));
    assert!(e.is_a(ErrorKind::Error));
    assert!(!e.is_a(ErrorKind::Warning));
    assert!(!e.is_a(ErrorKind::InterfaceError));
    assert_eq!(e.clone(), e);
}

#[test]
fn codes_map_to_their_kinds() {
    assert_eq!(classify_code(19), ErrorKind::IntegrityError);
    assert_eq!(classify_code(275), ErrorKind::IntegrityError);
    assert_eq!(classify_code(787), ErrorKind::IntegrityError);
    assert_eq!(classify_code(1555), ErrorKind::IntegrityError);
    assert_eq!(classify_code(2067), ErrorKind::IntegrityError);
    assert_eq!(classify_code(5), ErrorKind::OperationalError);
    assert_eq!(classify_code(261), ErrorKind::OperationalError);
    assert_eq!(classify_code(6), ErrorKind::OperationalError);
    assert_eq!(classify_code(262), ErrorKind::OperationalError);
    assert_eq!(classify_code(10), ErrorKind::OperationalError);
    assert_eq!(classify_code(266), ErrorKind::OperationalError);
    assert_eq!(classify_code(21), ErrorKind::ProgrammingError);
    for other in [0, 1, 2, 7, 11, 14, 18, 20, 22, 26, 100, 101, 255, 256, i32::MAX] {
        assert_eq!(classify_code(other), ErrorKind::DatabaseError, "{}", other);
    }
    for negative in [-1, -19, -237, -2067, i32::MIN] {
        assert_eq!(classify_code(negative), ErrorKind::DatabaseError, "{}", negative);
    }
}

#[test]
fn coded_failure_with_a_message() {
    let failure = EngineFailure::Coded {
        extended_code: 2067,
        message: Some(String::from("UNIQUE constraint failed: t.id")),
    };
    let e = map_engine_failure(&failure, ErrorKind::DatabaseError, Operation::ExecutingQuery);
    assert_eq!(e.kind, ErrorKind::IntegrityError);
    assert_eq!(e.code, Some(2067));
    assert_eq!(
        e.message,
        "encountered error code 2067 while executing query: UNIQUE constraint failed: t.id"
    );
}

#[test]
fn coded_failure_without_a_message() {
    let failure = EngineFailure::Coded { extended_code: 14, message: None };
    let e = map_engine_failure(&failure, ErrorKind::DatabaseError, Operation::Connecting);
    assert_eq!(e.kind, ErrorKind::DatabaseError);
    assert_eq!(e.code, Some(14));
    assert_eq!(e.message, "encountered error code 14 while connecting");
}

#[test]
fn coded_failure_names_the_operation() {
    let failure = EngineFailure::Coded { extended_code: 1, message: Some(String::from("m")) };
    let cases = [
        (Operation::Connecting, "encountered error code 1 while connecting: m"),
        (Operation::PreparingQuery, "encountered error code 1 while preparing query: m"),
        (Operation::ExecutingQuery, "encountered error code 1 while executing query: m"),
        (Operation::ClosingConnection, "encountered error code 1 while closing connection: m"),
        (Operation::Committing, "encountered error code 1 while committing: m"),
        (Operation::RollingBack, "encountered error code 1 while rolling back: m"),
    ];
    for (operation, message) in cases {
        let e = map_engine_failure(&failure, ErrorKind::Error, operation);
        assert_eq!(e.message, message);
        assert_eq!(e.kind, ErrorKind::DatabaseError);
    }
}

#[test]
fn coded_failure_ignores_the_default_kind() {
    let failure = EngineFailure::Coded { extended_code: 19, message: None };
    for default_kind in KINDS {
        let e = map_engine_failure(&failure, default_kind, Operation::PreparingQuery);
        assert_eq!(e.kind, ErrorKind::IntegrityError);
        assert_eq!(e.message, "encountered error code 19 while preparing query");
    }
}

#[test]
fn uncoded_failure_takes_the_default_kind() {
    for default_kind in KINDS {
        let e = map_engine_failure(&EngineFailure::Uncoded, default_kind, Operation::Connecting);
        assert_eq!(e.kind, default_kind);
        assert_eq!(e.code, None);
        assert_eq!(e.message, "could not connect to database");
    }
    let cases = [
        (Operation::PreparingQuery, "could not prepare query"),
        (Operation::ExecutingQuery, "could not execute query"),
        (Operation::ClosingConnection, "could not close connection"),
        (Operation::Committing, "could not commit"),
        (Operation::RollingBack, "could not roll back"),
    ];
    for (operation, message) in cases {
        let e = map_engine_failure(&EngineFailure::Uncoded, ErrorKind::Error, operation);
        assert_eq!(e.message, message);
    }
}

#[test]
fn operations_have_their_defaults() {
    assert_eq!(Operation::Connecting.default_kind(), ErrorKind::DatabaseError);
    assert_eq!(Operation::PreparingQuery.default_kind(), ErrorKind::DatabaseError);
    assert_eq!(Operation::ExecutingQuery.default_kind(), ErrorKind::DatabaseError);
    assert_eq!(Operation::ClosingConnection.default_kind(), ErrorKind::OperationalError);
    assert_eq!(Operation::Committing.default_kind(), ErrorKind::OperationalError);
    assert_eq!(Operation::RollingBack.default_kind(), ErrorKind::OperationalError);
    assert_eq!(Operation::Connecting.label(), "connecting");
    assert_eq!(Operation::PreparingQuery.label(), "preparing query");
    assert_eq!(Operation::Connecting.uncoded_message(), "could not connect to database");
}

#[test]
fn negative_and_extreme_codes_are_written_in_full() {
    let cases = [
        (-1, "encountered error code -1 while connecting"),
        (0, "encountered error code 0 while connecting"),
        (i32::MAX, "encountered error code 2147483647 while connecting"),
        (i32::MIN, "encountered error code -2147483648 while connecting"),
    ];
    for (extended_code, message) in cases {
        let failure = EngineFailure::Coded { extended_code, message: None };
        let e = map_engine_failure(&failure, ErrorKind::Error, Operation::Connecting);
        assert_eq!(e.message, message);
        assert_eq!(e.code, Some(extended_code));
    }
}

#[test]
fn decimal_text_of_numbers() {
    assert_eq!(decimal_string(0), "0");
    assert_eq!(decimal_string(7), "7");
    assert_eq!(decimal_string(10), "10");
    assert_eq!(decimal_string(2067), "2067");
    assert_eq!(decimal_string(-5), "-5");
    assert_eq!(decimal_string(1000000), "1000000");
    assert_eq!(decimal_string(i32::MAX), "2147483647");
    assert_eq!(decimal_string(i32::MIN), "-2147483648");
    for n in -3000..3000 {
        assert_eq!(decimal_string(n), format!("{}", n));
    }
}
