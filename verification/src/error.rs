//! The kinds of error that the driver reports, how they descend from one
//! another, and how a failure of the engine becomes one of them.

use vstd::prelude::*;
use vstd::string::*;
use crate::text::{decimal_string, decimal_text};

verus! {

/// The nine kinds of the taxonomy.
///
/// `Warning` and `Error` are roots. `InterfaceError` and `DatabaseError`
/// descend from `Error`; the five others descend from `DatabaseError`.
#[derive(Clone, Copy, Debug, PartialEq, Eq, Hash, Structural)]
pub enum ErrorKind {
    Warning,
    Error,
    /// Misuse of the driver itself.
    InterfaceError,
    DatabaseError,
    /// A value could not be represented or converted.
    DataError,
    /// A failure of the engine at work: I/O, a lock.
    OperationalError,
    /// A constraint was violated.
    IntegrityError,
    /// Malformed SQL, a wrong parameter.
    ProgrammingError,
    /// A feature that is not supported was asked for.
    NotSupportedError,
}

impl ErrorKind {
    /// The kind that this kind descends from directly; none for a root.
    pub open spec fn parent_of(self) -> Option<ErrorKind> {
        match self {
            ErrorKind::Warning => None,
            ErrorKind::Error => None,
            ErrorKind::InterfaceError => Some(ErrorKind::Error),
            ErrorKind::DatabaseError => Some(ErrorKind::Error),
            ErrorKind::DataError => Some(ErrorKind::DatabaseError),
            ErrorKind::OperationalError => Some(ErrorKind::DatabaseError),
            ErrorKind::IntegrityError => Some(ErrorKind::DatabaseError),
            ErrorKind::ProgrammingError => Some(ErrorKind::DatabaseError),
            ErrorKind::NotSupportedError => Some(ErrorKind::DatabaseError),
        }
    }

    /// Whether this kind is `ancestor` or descends from it.
    pub open spec fn descends_from(self, ancestor: ErrorKind) -> bool {
        self == ancestor || match self.parent_of() {
            None => false,
            Some(p) => p == ancestor || p.parent_of() == Some(ancestor),
        }
    }

    /// The name under which the kind is exported.
    pub open spec fn name_text(self) -> Seq<char> {
        match self {
            ErrorKind::Warning => "Warning"@,
            ErrorKind::Error => "Error"@,
            ErrorKind::InterfaceError => "InterfaceError"@,
            ErrorKind::DatabaseError => "DatabaseError"@,
            ErrorKind::DataError => "DataError"@,
            ErrorKind::OperationalError => "OperationalError"@,
            ErrorKind::IntegrityError => "IntegrityError"@,
            ErrorKind::ProgrammingError => "ProgrammingError"@,
            ErrorKind::NotSupportedError => "NotSupportedError"@,
        }
    }

    /// The kind that this kind descends from directly; none for a root.
    pub fn parent(self) -> (p: Option<ErrorKind>)
        ensures
            p == self.parent_of(),
    {
        match self {
            ErrorKind::Warning => None,
            ErrorKind::Error => None,
            ErrorKind::InterfaceError => Some(ErrorKind::Error),
            ErrorKind::DatabaseError => Some(ErrorKind::Error),
            ErrorKind::DataError => Some(ErrorKind::DatabaseError),
            ErrorKind::OperationalError => Some(ErrorKind::DatabaseError),
            ErrorKind::IntegrityError => Some(ErrorKind::DatabaseError),
            ErrorKind::ProgrammingError => Some(ErrorKind::DatabaseError),
            ErrorKind::NotSupportedError => Some(ErrorKind::DatabaseError),
        }
    }

    /// Whether this kind is `ancestor` or descends from it.
    pub fn is_a(self, ancestor: ErrorKind) -> (b: bool)
        ensures
            b == self.descends_from(ancestor),
    {
        let mut current: ErrorKind = self;
        loop
            invariant
                self.descends_from(ancestor) == current.descends_from(ancestor),
            decreases current.depth(),
        {
            if current == ancestor {
                return true;
            }
            match current.parent() {
                None => {
                    return false;
                },
                Some(p) => {
                    current = p;
                },
            }
        }
    }

    /// The number of kinds above this one.
    pub open spec fn depth(self) -> nat {
        match self.parent_of() {
            None => 0,
            Some(p) => match p.parent_of() {
                None => 1,
                Some(_) => 2,
            },
        }
    }

    /// The name under which the kind is exported.
    pub fn name(self) -> (s: &'static str)
        ensures
            s@ == self.name_text(),
    {
        match self {
            ErrorKind::Warning => "Warning",
            ErrorKind::Error => "Error",
            ErrorKind::InterfaceError => "InterfaceError",
            ErrorKind::DatabaseError => "DatabaseError",
            ErrorKind::DataError => "DataError",
            ErrorKind::OperationalError => "OperationalError",
            ErrorKind::IntegrityError => "IntegrityError",
            ErrorKind::ProgrammingError => "ProgrammingError",
            ErrorKind::NotSupportedError => "NotSupportedError",
        }
    }
}

/// An error as the driver reports it: its kind, the engine's numeric code
/// where there is one, and a message for a human reader.
#[derive(Debug, PartialEq, Eq)]
pub struct StructuredError {
    pub kind: ErrorKind,
    pub code: Option<i32>,
    pub message: String,
}

/// What a `StructuredError` holds, its message as a sequence of characters.
pub struct StructuredErrorView {
    pub kind: ErrorKind,
    pub code: Option<i32>,
    pub message: Seq<char>,
}

impl View for StructuredError {
    type V = StructuredErrorView;

    open spec fn view(&self) -> StructuredErrorView {
        StructuredErrorView { kind: self.kind, code: self.code, message: self.message@ }
    }
}

impl Clone for StructuredError {
    fn clone(&self) -> (copy: StructuredError)
        ensures
            copy@ == self@,
    {
        StructuredError { kind: self.kind, code: self.code, message: self.message.clone() }
    }
}

/// An error of `kind` that has no engine code.
pub open spec fn plain_error(kind: ErrorKind, message: Seq<char>) -> StructuredErrorView {
    StructuredErrorView { kind, code: None, message }
}

impl StructuredError {
    /// An error of `kind` that has no engine code.
    pub fn new(kind: ErrorKind, message: &str) -> (e: StructuredError)
        ensures
            e@ == plain_error(kind, message@),
    {
        StructuredError { kind, code: None, message: String::from_str(message) }
    }

    /// Whether the error is of `kind` or of a kind that descends from it.
    pub fn is_a(&self, kind: ErrorKind) -> (b: bool)
        ensures
            b == self.kind.descends_from(kind),
    {
        self.kind.is_a(kind)
    }

    /// The message, as `to_string` of an error gives it.
    pub fn message_text(&self) -> (text: String)
        ensures
            text@ == self.message@,
    {
        self.message.clone()
    }
}

/// A failure as the engine reports it.
#[derive(Debug, PartialEq, Eq)]
pub enum EngineFailure {
    /// An extended result code, and the engine's message where it gave one.
    Coded { extended_code: i32, message: Option<String> },
    /// A failure that carries no code.
    Uncoded,
}

/// What an `EngineFailure` holds, its message as a sequence of characters.
pub enum EngineFailureView {
    Coded { extended_code: i32, message: Option<Seq<char>> },
    Uncoded,
}

impl View for EngineFailure {
    type V = EngineFailureView;

    open spec fn view(&self) -> EngineFailureView {
        match self {
            EngineFailure::Coded { extended_code, message } => EngineFailureView::Coded {
                extended_code: *extended_code,
                message: match message {
                    Some(m) => Some(m@),
                    None => None,
                },
            },
            EngineFailure::Uncoded => EngineFailureView::Uncoded,
        }
    }
}

/// What the driver was doing with the engine when a failure came.
#[derive(Clone, Copy, Debug, PartialEq, Eq, Structural)]
pub enum Operation {
    Connecting,
    PreparingQuery,
    ExecutingQuery,
    ClosingConnection,
    Committing,
    RollingBack,
}

impl Operation {
    /// The words for the operation in the message of a coded failure.
    pub open spec fn label_text(self) -> Seq<char> {
        match self {
            Operation::Connecting => "connecting"@,
            Operation::PreparingQuery => "preparing query"@,
            Operation::ExecutingQuery => "executing query"@,
            Operation::ClosingConnection => "closing connection"@,
            Operation::Committing => "committing"@,
            Operation::RollingBack => "rolling back"@,
        }
    }

    /// The message of a failure of the operation that carries no code.
    pub open spec fn uncoded_text(self) -> Seq<char> {
        match self {
            Operation::Connecting => "could not connect to database"@,
            Operation::PreparingQuery => "could not prepare query"@,
            Operation::ExecutingQuery => "could not execute query"@,
            Operation::ClosingConnection => "could not close connection"@,
            Operation::Committing => "could not commit"@,
            Operation::RollingBack => "could not roll back"@,
        }
    }

    /// The kind of a failure of the operation that carries no code: an
    /// operational error where the session is closed or a transaction ended,
    /// a database error otherwise.
    pub open spec fn default_kind_of(self) -> ErrorKind {
        match self {
            Operation::Connecting => ErrorKind::DatabaseError,
            Operation::PreparingQuery => ErrorKind::DatabaseError,
            Operation::ExecutingQuery => ErrorKind::DatabaseError,
            Operation::ClosingConnection => ErrorKind::OperationalError,
            Operation::Committing => ErrorKind::OperationalError,
            Operation::RollingBack => ErrorKind::OperationalError,
        }
    }

    /// The words for the operation in the message of a coded failure.
    pub fn label(self) -> (s: &'static str)
        ensures
            s@ == self.label_text(),
    {
        match self {
            Operation::Connecting => "connecting",
            Operation::PreparingQuery => "preparing query",
            Operation::ExecutingQuery => "executing query",
            Operation::ClosingConnection => "closing connection",
            Operation::Committing => "committing",
            Operation::RollingBack => "rolling back",
        }
    }

    /// The message of a failure of the operation that carries no code.
    pub fn uncoded_message(self) -> (s: &'static str)
        ensures
            s@ == self.uncoded_text(),
    {
        match self {
            Operation::Connecting => "could not connect to database",
            Operation::PreparingQuery => "could not prepare query",
            Operation::ExecutingQuery => "could not execute query",
            Operation::ClosingConnection => "could not close connection",
            Operation::Committing => "could not commit",
            Operation::RollingBack => "could not roll back",
        }
    }

    /// The kind of a failure of the operation that carries no code.
    pub fn default_kind(self) -> (kind: ErrorKind)
        ensures
            kind == self.default_kind_of(),
    {
        match self {
            Operation::Connecting => ErrorKind::DatabaseError,
            Operation::PreparingQuery => ErrorKind::DatabaseError,
            Operation::ExecutingQuery => ErrorKind::DatabaseError,
            Operation::ClosingConnection => ErrorKind::OperationalError,
            Operation::Committing => ErrorKind::OperationalError,
            Operation::RollingBack => ErrorKind::OperationalError,
        }
    }
}

/// The primary result code of an extended result code: its lowest eight bits.
pub open spec fn primary_code(extended_code: int) -> int {
    extended_code % 256
}

/// The kind that an extended result code stands for: a constraint code (19)
/// is an integrity error; busy (5), locked (6) and I/O (10) are operational
/// errors; misuse (21) is a programming error; any other code, and a negative
/// one, is a database error.
pub open spec fn kind_of_code(extended_code: int) -> ErrorKind {
    let primary = primary_code(extended_code);
    if extended_code < 0 {
        ErrorKind::DatabaseError
    } else if primary == 19 {
        ErrorKind::IntegrityError
    } else if primary == 5 || primary == 6 || primary == 10 {
        ErrorKind::OperationalError
    } else if primary == 21 {
        ErrorKind::ProgrammingError
    } else {
        ErrorKind::DatabaseError
    }
}

/// The message of a coded failure: the code in decimal, the operation, and
/// after a colon the engine's message where it gave one.
pub open spec fn coded_message(
    extended_code: int,
    operation: Operation,
    detail: Option<Seq<char>>,
) -> Seq<char> {
    let head = "encountered error code "@ + decimal_text(extended_code) + " while "@
        + operation.label_text();
    match detail {
        Some(m) => head + ": "@ + m,
        None => head,
    }
}

/// The error that a failure of the engine becomes.
pub open spec fn engine_error(
    failure: EngineFailureView,
    default_kind: ErrorKind,
    operation: Operation,
) -> StructuredErrorView {
    match failure {
        EngineFailureView::Coded { extended_code, message } => StructuredErrorView {
            kind: kind_of_code(extended_code as int),
            code: Some(extended_code),
            message: coded_message(extended_code as int, operation, message),
        },
        EngineFailureView::Uncoded => StructuredErrorView {
            kind: default_kind,
            code: None,
            message: operation.uncoded_text(),
        },
    }
}

/// The kind that an extended result code stands for.
pub fn classify_code(extended_code: i32) -> (kind: ErrorKind)
    ensures
        kind == kind_of_code(extended_code as int),
{
    if extended_code < 0 {
        return ErrorKind::DatabaseError;
    }
    let primary: i32 = extended_code % 256;
    if primary == 19 {
        ErrorKind::IntegrityError
    } else if primary == 5 || primary == 6 || primary == 10 {
        ErrorKind::OperationalError
    } else if primary == 21 {
        ErrorKind::ProgrammingError
    } else {
        ErrorKind::DatabaseError
    }
}

/// Turns a failure of the engine into an error of the taxonomy.
///
/// A failure with a code takes its kind from the code and carries the code,
/// in the error and in the message. A failure without a code takes
/// `default_kind`, which the caller chooses for what it was doing.
pub fn map_engine_failure(
    failure: &EngineFailure,
    default_kind: ErrorKind,
    operation: Operation,
) -> (e: StructuredError)
    ensures
        e@ == engine_error(failure@, default_kind, operation),
{
    match failure {
        EngineFailure::Coded { extended_code, message } => {
            let mut text = String::from_str("encountered error code ");
            text.append(decimal_string(*extended_code).as_str());
            text.append(" while ");
            text.append(operation.label());
            match message {
                Some(m) => {
                    text.append(": ");
                    text.append(m.as_str());
                },
                None => {},
            }
            assert(text@ =~= coded_message(*extended_code as int, operation, failure@->message));
            StructuredError {
                kind: classify_code(*extended_code),
                code: Some(*extended_code),
                message: text,
            }
        },
        EngineFailure::Uncoded => StructuredError {
            kind: default_kind,
            code: None,
            message: String::from_str(operation.uncoded_message()),
        },
    }
}

/// Every kind descends from itself.
pub proof fn lemma_descent_reflexive(kind: ErrorKind)
    ensures
        kind.descends_from(kind),
{
}

/// What descends from a descendant descends from the ancestor.
pub proof fn lemma_descent_transitive(a: ErrorKind, b: ErrorKind, c: ErrorKind)
    requires
        a.descends_from(b),
        b.descends_from(c),
    ensures
        a.descends_from(c),
{
}

/// Two kinds that descend from each other are one kind.
pub proof fn lemma_descent_antisymmetric(a: ErrorKind, b: ErrorKind)
    requires
        a.descends_from(b),
        b.descends_from(a),
    ensures
        a == b,
{
}

/// Every kind but `Warning` is an `Error`; `Warning` is none. The kinds below
/// `DatabaseError` are the five leaves, and `InterfaceError` is not among them.
pub proof fn lemma_taxonomy_shape(kind: ErrorKind)
    ensures
        kind.descends_from(ErrorKind::Error) <==> kind != ErrorKind::Warning,
        kind.descends_from(ErrorKind::DatabaseError) <==> (kind != ErrorKind::Warning && kind
            != ErrorKind::Error && kind != ErrorKind::InterfaceError),
        kind.descends_from(ErrorKind::Warning) <==> kind == ErrorKind::Warning,
{
}

/// The engine never makes an interface error: a failure of the engine becomes
/// an integrity, operational, programming or database error, or the kind that
/// the caller chose for a failure without a code.
pub proof fn lemma_engine_error_kinds(
    failure: EngineFailureView,
    default_kind: ErrorKind,
    operation: Operation,
)
    ensures
        ({
            let kind = engine_error(failure, default_kind, operation).kind;
            kind == ErrorKind::IntegrityError || kind == ErrorKind::OperationalError || kind
                == ErrorKind::ProgrammingError || kind == ErrorKind::DatabaseError || (failure
                is Uncoded && kind == default_kind)
        }),
        failure is Coded ==> engine_error(failure, default_kind, operation).kind.descends_from(
            ErrorKind::DatabaseError,
        ),
{
}

/// A constraint code, plain (19) or extended (19 in its lowest eight bits),
/// becomes an integrity error whatever the operation and the default; a
/// failure without a code becomes an error of the default kind.
pub proof fn lemma_constraint_and_default(
    extended_code: i32,
    message: Option<Seq<char>>,
    default_kind: ErrorKind,
    operation: Operation,
)
    ensures
        extended_code >= 0 && extended_code % 256 == 19 ==> engine_error(
            EngineFailureView::Coded { extended_code, message },
            default_kind,
            operation,
        ).kind == ErrorKind::IntegrityError,
        engine_error(EngineFailureView::Uncoded, default_kind, operation).kind == default_kind,
{
}

} // verus!
