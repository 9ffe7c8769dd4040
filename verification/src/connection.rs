//! The connection: open after `connect`, closed for good after `close`.
//!
//! The session of the engine is held by the driver around this library. The
//! connection here decides what the driver may ask of the engine, and turns
//! what the engine answered into the result of the call.

use vstd::prelude::*;
use crate::cursor::PyCursor;
use crate::error::{
    engine_error, map_engine_failure, plain_error, EngineFailure, ErrorKind, Operation,
    StructuredError, StructuredErrorView,
};

verus! {

/// What a cursor finds when it looks for its connection.
#[derive(Clone, Copy, Debug, PartialEq, Eq, Structural)]
pub enum ConnectionAccess {
    /// The connection is gone, or in use by a call that has not returned.
    Unreachable,
    /// The connection is there and was closed.
    Closed,
    /// The connection is there and open.
    Open,
}

/// A connection to a database.
#[derive(Debug)]
pub struct PyConnection {
    closed: bool,
}

/// The error of any call on a closed connection.
pub open spec fn closed_connection_error() -> StructuredErrorView {
    plain_error(ErrorKind::InterfaceError, "connection is closed"@)
}

/// The error of a call whose connection is gone or in use.
pub open spec fn unreachable_connection_error() -> StructuredErrorView {
    plain_error(ErrorKind::InterfaceError, "could not access connection object"@)
}

/// What a call may do that found its connection so: go on where it is open,
/// and fail with an interface error where it is closed or cannot be reached.
pub open spec fn access_outcome(access: ConnectionAccess) -> Result<(), StructuredErrorView> {
    match access {
        ConnectionAccess::Unreachable => Err(unreachable_connection_error()),
        ConnectionAccess::Closed => Err(closed_connection_error()),
        ConnectionAccess::Open => Ok(()),
    }
}

/// A result by what its error holds.
pub open spec fn result_view<T>(result: Result<T, StructuredError>) -> Result<
    T,
    StructuredErrorView,
> {
    match result {
        Ok(value) => Ok(value),
        Err(e) => Err(e@),
    }
}

/// What a call that needed the engine gives on an open connection: the
/// engine's answer, a failure turned into an error of the taxonomy.
pub open spec fn engine_result<T>(
    answer: Result<T, EngineFailure>,
    operation: Operation,
) -> Result<T, StructuredErrorView> {
    match answer {
        Ok(value) => Ok(value),
        Err(failure) => Err(engine_error(failure@, operation.default_kind_of(), operation)),
    }
}

/// Turns the engine's answer to `operation` into the result of the call.
pub fn fold_engine_answer<T>(answer: Result<T, EngineFailure>, operation: Operation) -> (result:
    Result<T, StructuredError>)
    ensures
        result_view(result) == engine_result(answer, operation),
{
    match answer {
        Ok(value) => Ok(value),
        Err(failure) => Err(map_engine_failure(&failure, operation.default_kind(), operation)),
    }
}

/// Makes the connection of a session that the engine was asked to open: an
/// open connection where the engine opened it, else the engine's failure as
/// an error, a database error where it carries no code.
pub fn connect(opened: Result<(), EngineFailure>) -> (result: Result<PyConnection, StructuredError>)
    ensures
        result_view(result) is Ok <==> opened is Ok,
        result matches Ok(connection) ==> !connection.is_closed(),
        result_view(result) matches Err(e) ==> e == engine_error(
            opened->Err_0@,
            ErrorKind::DatabaseError,
            Operation::Connecting,
        ),
{
    match opened {
        Ok(_) => Ok(PyConnection::new()),
        Err(failure) => Err(
            map_engine_failure(&failure, ErrorKind::DatabaseError, Operation::Connecting),
        ),
    }
}

impl PyConnection {
    /// Whether the connection was closed.
    pub closed spec fn is_closed(&self) -> bool {
        self.closed
    }

    /// An open connection.
    pub fn new() -> (connection: PyConnection)
        ensures
            !connection.is_closed(),
    {
        PyConnection { closed: false }
    }

    /// Whether the connection was closed.
    pub fn closed(&self) -> (closed: bool)
        ensures
            closed == self.is_closed(),
    {
        self.closed
    }

    /// Whether a call may go on to the engine: it may on an open connection,
    /// and fails with an interface error on a closed one.
    pub fn check_open(&self) -> (result: Result<(), StructuredError>)
        ensures
            result_view(result) == (if self.is_closed() {
                Err(closed_connection_error())
            } else {
                Ok(())
            }),
    {
        if self.closed {
            Err(StructuredError::new(ErrorKind::InterfaceError, "connection is closed"))
        } else {
            Ok(())
        }
    }

    /// What a cursor finds that looked for its connection and found `found`.
    pub fn access(found: Option<&PyConnection>) -> (access: ConnectionAccess)
        ensures
            access == (match found {
                None => ConnectionAccess::Unreachable,
                Some(connection) => if connection.is_closed() {
                    ConnectionAccess::Closed
                } else {
                    ConnectionAccess::Open
                },
            }),
    {
        match found {
            None => ConnectionAccess::Unreachable,
            Some(connection) => if connection.closed {
                ConnectionAccess::Closed
            } else {
                ConnectionAccess::Open
            },
        }
    }

    /// Whether a call that found its connection so may go on to the engine.
    pub fn check_access(access: ConnectionAccess) -> (result: Result<(), StructuredError>)
        ensures
            result_view(result) == access_outcome(access),
    {
        match access {
            ConnectionAccess::Unreachable => Err(
                StructuredError::new(
                    ErrorKind::InterfaceError,
                    "could not access connection object",
                ),
            ),
            ConnectionAccess::Closed => Err(
                StructuredError::new(ErrorKind::InterfaceError, "connection is closed"),
            ),
            ConnectionAccess::Open => Ok(()),
        }
    }

    /// A new cursor on this connection; an interface error on a closed one.
    pub fn cursor(&self, as_dict: bool) -> (result: Result<PyCursor, StructuredError>)
        ensures
            result is Ok <==> !self.is_closed(),
            result matches Ok(cursor) ==> cursor@ == PyCursor::fresh(as_dict),
            result matches Err(e) ==> e@ == closed_connection_error(),
    {
        match self.check_open() {
            Ok(_) => Ok(PyCursor::new(as_dict)),
            Err(e) => Err(e),
        }
    }

    /// Ends a call of `close`, to which the engine answered `answer` where
    /// `check_open` let the call go on to it. On an open connection the
    /// engine's success closes the connection; its failure leaves it open and
    /// is the error of the call, an operational error where it carries no
    /// code. A closed connection stays closed, and the call fails.
    pub fn close(&mut self, answer: Result<(), EngineFailure>) -> (result: Result<
        (),
        StructuredError,
    >)
        ensures
            old(self).is_closed() ==> final(self).is_closed() && result_view(result) == Err::<
                (),
                StructuredErrorView,
            >(closed_connection_error()),
            !old(self).is_closed() ==> final(self).is_closed() == (answer is Ok) && result_view(
                result,
            ) == engine_result(answer, Operation::ClosingConnection),
    {
        match self.check_open() {
            Ok(_) => {
                let result = fold_engine_answer(answer, Operation::ClosingConnection);
                if result.is_ok() {
                    self.closed = true;
                }
                result
            },
            Err(e) => Err(e),
        }
    }

    /// Ends a call of `commit`, to which the engine answered `answer`.
    pub fn commit(&self, answer: Result<(), EngineFailure>) -> (result: Result<
        (),
        StructuredError,
    >)
        ensures
            result_view(result) == (if self.is_closed() {
                Err(closed_connection_error())
            } else {
                engine_result(answer, Operation::Committing)
            }),
    {
        match self.check_open() {
            Ok(_) => fold_engine_answer(answer, Operation::Committing),
            Err(e) => Err(e),
        }
    }

    /// Ends a call of `rollback`, to which the engine answered `answer`:
    /// whether a transaction was there to roll back, or its failure.
    pub fn rollback(&self, answer: Result<bool, EngineFailure>) -> (result: Result<
        bool,
        StructuredError,
    >)
        ensures
            result_view(result) == (if self.is_closed() {
                Err(closed_connection_error())
            } else {
                engine_result(answer, Operation::RollingBack)
            }),
    {
        match self.check_open() {
            Ok(_) => fold_engine_answer(answer, Operation::RollingBack),
            Err(e) => Err(e),
        }
    }
}

} // verus!
