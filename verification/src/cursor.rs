//! The cursor: what one statement left behind, and the protocol by which one
//! call of `execute` runs.
//!
//! The cursor does none of the engine's work. It is told what happened (the
//! call came, the connection was looked up, the statement was prepared, the
//! statement ran) and answers each time with what is to be done next, until
//! it answers with the result of the call.

use vstd::prelude::*;
use crate::connection::{access_outcome, ConnectionAccess, PyConnection};
use crate::error::{
    engine_error, map_engine_failure, plain_error, EngineFailure, EngineFailureView, ErrorKind,
    Operation, StructuredError, StructuredErrorView,
};
use crate::params::{bind_params, bound_view, params_outcome, params_view, Param, ParamView};
use crate::types::{SqlParam, SqlParamView};

verus! {

/// A column of a result as the engine names it.
#[derive(Debug, PartialEq, Eq)]
pub struct Column {
    pub name: String,
    pub type_code: String,
}

/// What a `Column` holds.
pub struct ColumnView {
    pub name: Seq<char>,
    pub type_code: Seq<char>,
}

impl View for Column {
    type V = ColumnView;

    open spec fn view(&self) -> ColumnView {
        ColumnView { name: self.name@, type_code: self.type_code@ }
    }
}

/// The seven entries that describe one column of a result.
#[derive(Debug, PartialEq, Eq)]
pub struct ColumnDescription {
    pub name: String,
    pub type_code: String,
    pub display_size: Option<u64>,
    pub internal_size: Option<u64>,
    pub precision: Option<u64>,
    pub scale: Option<u64>,
    pub null_ok: Option<bool>,
}

/// What a `ColumnDescription` holds.
pub struct ColumnDescriptionView {
    pub name: Seq<char>,
    pub type_code: Seq<char>,
    pub display_size: Option<u64>,
    pub internal_size: Option<u64>,
    pub precision: Option<u64>,
    pub scale: Option<u64>,
    pub null_ok: Option<bool>,
}

impl View for ColumnDescription {
    type V = ColumnDescriptionView;

    open spec fn view(&self) -> ColumnDescriptionView {
        ColumnDescriptionView {
            name: self.name@,
            type_code: self.type_code@,
            display_size: self.display_size,
            internal_size: self.internal_size,
            precision: self.precision,
            scale: self.scale,
            null_ok: self.null_ok,
        }
    }
}

/// The description of one column: its name and type code, nothing else set.
pub open spec fn column_description(column: ColumnView) -> ColumnDescriptionView {
    ColumnDescriptionView {
        name: column.name,
        type_code: column.type_code,
        display_size: None,
        internal_size: None,
        precision: None,
        scale: None,
        null_ok: None,
    }
}

/// The description of a result: none where it has no columns, else one entry
/// for each column, in their order.
pub open spec fn description_of(columns: Seq<ColumnView>) -> Option<Seq<ColumnDescriptionView>> {
    if columns.len() == 0 {
        None
    } else {
        Some(columns.map_values(|c: ColumnView| column_description(c)))
    }
}

/// What a statement gave that ran: the columns of its result, and the number
/// of rows where the engine knows one.
#[derive(Debug)]
pub struct StatementOutcome {
    pub columns: Vec<Column>,
    pub rows: Option<u64>,
}

/// What a `StatementOutcome` holds.
pub struct StatementOutcomeView {
    pub columns: Seq<ColumnView>,
    pub rows: Option<u64>,
}

impl View for StatementOutcome {
    type V = StatementOutcomeView;

    open spec fn view(&self) -> StatementOutcomeView {
        StatementOutcomeView {
            columns: self.columns@.map_values(|c: Column| c@),
            rows: self.rows,
        }
    }
}

/// Where a call of `execute` stands.
#[derive(Clone, Copy, Debug, PartialEq, Eq, Structural)]
pub enum ExecuteStage {
    /// No call is under way.
    Idle,
    /// The connection is being looked up.
    Resolving,
    /// The engine is preparing the statement.
    Preparing,
    /// The engine is running the statement.
    Running,
}

/// What happened, as the driver tells the cursor.
#[derive(Debug)]
pub enum ExecuteEvent {
    /// The host called `execute`.
    Called,
    /// The connection was looked up.
    ConnectionFound(ConnectionAccess),
    /// The engine prepared the statement, or failed to.
    Prepared(Result<(), EngineFailure>),
    /// The engine ran the statement, or failed to.
    Ran(Result<StatementOutcome, EngineFailure>),
}

/// What an `ExecuteEvent` holds.
pub enum ExecuteEventView {
    Called,
    ConnectionFound(ConnectionAccess),
    Prepared(Result<(), EngineFailureView>),
    Ran(Result<StatementOutcomeView, EngineFailureView>),
}

impl View for ExecuteEvent {
    type V = ExecuteEventView;

    open spec fn view(&self) -> ExecuteEventView {
        match self {
            ExecuteEvent::Called => ExecuteEventView::Called,
            ExecuteEvent::ConnectionFound(access) => ExecuteEventView::ConnectionFound(*access),
            ExecuteEvent::Prepared(answer) => ExecuteEventView::Prepared(
                match answer {
                    Ok(_) => Ok(()),
                    Err(failure) => Err(failure@),
                },
            ),
            ExecuteEvent::Ran(answer) => ExecuteEventView::Ran(
                match answer {
                    Ok(outcome) => Ok(outcome@),
                    Err(failure) => Err(failure@),
                },
            ),
        }
    }
}

/// What the driver is to do next.
#[derive(Debug, PartialEq, Eq)]
pub enum ExecuteAction {
    /// Look the connection up.
    ResolveConnection,
    /// Have the engine prepare the statement.
    Prepare,
    /// Bind these values to the `?` of the statement, in this order, and have
    /// the engine run it.
    Run(Vec<SqlParam>),
    /// Return this to the host: the call is over.
    Return(Result<(), StructuredError>),
}

/// What an `ExecuteAction` holds.
pub enum ExecuteActionView {
    ResolveConnection,
    Prepare,
    Run(Seq<SqlParamView>),
    Return(Result<(), StructuredErrorView>),
}

impl View for ExecuteAction {
    type V = ExecuteActionView;

    open spec fn view(&self) -> ExecuteActionView {
        match self {
            ExecuteAction::ResolveConnection => ExecuteActionView::ResolveConnection,
            ExecuteAction::Prepare => ExecuteActionView::Prepare,
            ExecuteAction::Run(values) => ExecuteActionView::Run(bound_view(values@)),
            ExecuteAction::Return(result) => ExecuteActionView::Return(
                match result {
                    Ok(_) => Ok(()),
                    Err(e) => Err(e@),
                },
            ),
        }
    }
}

/// A cursor.
#[derive(Debug)]
pub struct PyCursor {
    description: Option<Vec<ColumnDescription>>,
    rowcount: u64,
    closed: bool,
    as_dict: bool,
    stage: ExecuteStage,
}

/// What a `PyCursor` holds.
pub struct CursorView {
    /// The description of the last result; none before any, and none after a
    /// statement without columns.
    pub description: Option<Seq<ColumnDescriptionView>>,
    /// The number of rows of the last statement that the engine knew one of.
    pub rowcount: u64,
    pub closed: bool,
    /// Whether rows are keyed by column name rather than by position.
    pub as_dict: bool,
    pub stage: ExecuteStage,
}

impl View for PyCursor {
    type V = CursorView;

    closed spec fn view(&self) -> CursorView {
        CursorView {
            description: match self.description {
                Some(entries) => Some(entries@.map_values(|d: ColumnDescription| d@)),
                None => None,
            },
            rowcount: self.rowcount,
            closed: self.closed,
            as_dict: self.as_dict,
            stage: self.stage,
        }
    }
}

impl CursorView {
    /// This cursor with no call under way.
    pub open spec fn idle(self) -> CursorView {
        CursorView { stage: ExecuteStage::Idle, ..self }
    }

    /// This cursor at another stage of a call.
    pub open spec fn at(self, stage: ExecuteStage) -> CursorView {
        CursorView { stage, ..self }
    }

    /// This cursor after a statement that ran: the description is that of its
    /// columns, and the row count is the engine's where it knows one.
    pub open spec fn after(self, outcome: StatementOutcomeView) -> CursorView {
        CursorView {
            description: description_of(outcome.columns),
            rowcount: match outcome.rows {
                Some(rows) => rows,
                None => self.rowcount,
            },
            stage: ExecuteStage::Idle,
            ..self
        }
    }
}

/// The action that ends a call with an interface error.
pub open spec fn refuse(message: Seq<char>) -> ExecuteActionView {
    ExecuteActionView::Return(Err(plain_error(ErrorKind::InterfaceError, message)))
}

/// The error of any call on a closed cursor.
pub open spec fn closed_cursor_message() -> Seq<char> {
    "cursor is closed"@
}

/// The error of an event that the stage of the call does not await.
pub open spec fn unexpected_message() -> Seq<char> {
    "event does not fit the state of the cursor"@
}

/// One step of a call of `execute`: the cursor after the event, and what is
/// to be done next.
///
/// A closed cursor refuses every event. An open one goes from the call to the
/// lookup of the connection, from a connection found open to the preparation,
/// from a prepared statement to its run with the converted parameters, and
/// from a statement that ran to the end of the call, where it takes the
/// description and the row count. Every failure ends the call and leaves
/// description and row count as they were.
pub open spec fn step(cursor: CursorView, event: ExecuteEventView, params: Seq<ParamView>) -> (
    CursorView,
    ExecuteActionView,
) {
    if cursor.closed {
        (cursor.idle(), refuse(closed_cursor_message()))
    } else {
        match (cursor.stage, event) {
            (ExecuteStage::Idle, ExecuteEventView::Called) => (
                cursor.at(ExecuteStage::Resolving),
                ExecuteActionView::ResolveConnection,
            ),
            (ExecuteStage::Resolving, ExecuteEventView::ConnectionFound(access)) => match access_outcome(
                access,
            ) {
                Ok(_) => (cursor.at(ExecuteStage::Preparing), ExecuteActionView::Prepare),
                Err(e) => (cursor.idle(), ExecuteActionView::Return(Err(e))),
            },
            (ExecuteStage::Preparing, ExecuteEventView::Prepared(Err(failure))) => (
                cursor.idle(),
                ExecuteActionView::Return(
                    Err(
                        engine_error(
                            failure,
                            Operation::PreparingQuery.default_kind_of(),
                            Operation::PreparingQuery,
                        ),
                    ),
                ),
            ),
            (ExecuteStage::Preparing, ExecuteEventView::Prepared(Ok(_))) => match params_outcome(
                params,
            ) {
                Ok(values) => (cursor.at(ExecuteStage::Running), ExecuteActionView::Run(values)),
                Err(e) => (cursor.idle(), ExecuteActionView::Return(Err(e))),
            },
            (ExecuteStage::Running, ExecuteEventView::Ran(Err(failure))) => (
                cursor.idle(),
                ExecuteActionView::Return(
                    Err(
                        engine_error(
                            failure,
                            Operation::ExecutingQuery.default_kind_of(),
                            Operation::ExecutingQuery,
                        ),
                    ),
                ),
            ),
            (ExecuteStage::Running, ExecuteEventView::Ran(Ok(outcome))) => (
                cursor.after(outcome),
                ExecuteActionView::Return(Ok(())),
            ),
            _ => (cursor.idle(), refuse(unexpected_message())),
        }
    }
}

/// Describes the columns of a result.
pub fn describe(columns: &Vec<Column>) -> (description: Option<Vec<ColumnDescription>>)
    ensures
        description_of(columns@.map_values(|c: Column| c@)) == (match description {
            Some(entries) => Some(entries@.map_values(|d: ColumnDescription| d@)),
            None => None,
        }),
{
    if columns.len() == 0 {
        return None;
    }
    let ghost wanted = columns@.map_values(|c: Column| c@).map_values(
        |c: ColumnView| column_description(c),
    );
    let mut entries: Vec<ColumnDescription> = Vec::new();
    let mut i: usize = 0;
    while i < columns.len()
        invariant
            i <= columns.len(),
            wanted == columns@.map_values(|c: Column| c@).map_values(
                |c: ColumnView| column_description(c),
            ),
            entries@.map_values(|d: ColumnDescription| d@) =~= wanted.take(i as int),
        decreases columns.len() - i,
    {
        let entry = ColumnDescription {
            name: columns[i].name.clone(),
            type_code: columns[i].type_code.clone(),
            display_size: None,
            internal_size: None,
            precision: None,
            scale: None,
            null_ok: None,
        };
        proof {
            assert(entry@ == column_description(columns@[i as int]@));
            assert(wanted[i as int] == column_description(columns@[i as int]@));
            assert(wanted.take(i + 1) =~= wanted.take(i as int).push(wanted[i as int]));
        }
        entries.push(entry);
        i = i + 1;
    }
    proof {
        assert(wanted.take(i as int) =~= wanted);
    }
    Some(entries)
}

impl PyCursor {
    /// What a new cursor holds: no description, no rows, open, no call under
    /// way.
    pub open spec fn fresh(as_dict: bool) -> CursorView {
        CursorView {
            description: None,
            rowcount: 0,
            closed: false,
            as_dict,
            stage: ExecuteStage::Idle,
        }
    }

    /// A new cursor.
    pub fn new(as_dict: bool) -> (cursor: PyCursor)
        ensures
            cursor@ == PyCursor::fresh(as_dict),
    {
        PyCursor {
            description: None,
            rowcount: 0,
            closed: false,
            as_dict,
            stage: ExecuteStage::Idle,
        }
    }

    /// Closes the cursor. Closing a closed cursor changes nothing.
    pub fn close(&mut self)
        ensures
            final(self)@ == (CursorView { closed: true, ..old(self)@ }),
    {
        self.closed = true;
    }

    /// Whether the cursor was closed.
    pub fn closed(&self) -> (closed: bool)
        ensures
            closed == self@.closed,
    {
        self.closed
    }

    /// Whether rows are keyed by column name rather than by position.
    pub fn as_dict(&self) -> (as_dict: bool)
        ensures
            as_dict == self@.as_dict,
    {
        self.as_dict
    }

    /// The number of rows of the last statement that the engine knew one of;
    /// 0 before any.
    pub fn rowcount(&self) -> (rowcount: u64)
        ensures
            rowcount == self@.rowcount,
    {
        self.rowcount
    }

    /// Where a call of `execute` stands.
    pub fn stage(&self) -> (stage: ExecuteStage)
        ensures
            stage == self@.stage,
    {
        self.stage
    }

    /// The description of the last result.
    pub fn description(&self) -> (description: &Option<Vec<ColumnDescription>>)
        ensures
            self@.description == (match description {
                Some(entries) => Some(entries@.map_values(|d: ColumnDescription| d@)),
                None => None,
            }),
    {
        &self.description
    }

    /// Takes one step of a call of `execute` with the parameters `params`.
    pub fn advance(&mut self, event: ExecuteEvent, params: &Vec<Param>) -> (action: ExecuteAction)
        ensures
            (final(self)@, action@) == step(old(self)@, event@, params_view(params@)),
    {
        if self.closed {
            self.stage = ExecuteStage::Idle;
            return ExecuteAction::Return(
                Err(StructuredError::new(ErrorKind::InterfaceError, "cursor is closed")),
            );
        }
        let stage = self.stage;
        self.stage = ExecuteStage::Idle;
        match event {
            ExecuteEvent::Called => {
                if stage == ExecuteStage::Idle {
                    self.stage = ExecuteStage::Resolving;
                    return ExecuteAction::ResolveConnection;
                }
            },
            ExecuteEvent::ConnectionFound(access) => {
                if stage == ExecuteStage::Resolving {
                    match PyConnection::check_access(access) {
                        Ok(_) => {
                            self.stage = ExecuteStage::Preparing;
                            return ExecuteAction::Prepare;
                        },
                        Err(e) => {
                            return ExecuteAction::Return(Err(e));
                        },
                    }
                }
            },
            ExecuteEvent::Prepared(answer) => {
                if stage == ExecuteStage::Preparing {
                    match answer {
                        Err(failure) => {
                            return ExecuteAction::Return(
                                Err(
                                    map_engine_failure(
                                        &failure,
                                        Operation::PreparingQuery.default_kind(),
                                        Operation::PreparingQuery,
                                    ),
                                ),
                            );
                        },
                        Ok(_) => {
                            match bind_params(params) {
                                Ok(values) => {
                                    self.stage = ExecuteStage::Running;
                                    return ExecuteAction::Run(values);
                                },
                                Err(e) => {
                                    return ExecuteAction::Return(Err(e));
                                },
                            }
                        },
                    }
                }
            },
            ExecuteEvent::Ran(answer) => {
                if stage == ExecuteStage::Running {
                    match answer {
                        Err(failure) => {
                            return ExecuteAction::Return(
                                Err(
                                    map_engine_failure(
                                        &failure,
                                        Operation::ExecutingQuery.default_kind(),
                                        Operation::ExecutingQuery,
                                    ),
                                ),
                            );
                        },
                        Ok(outcome) => {
                            self.description = describe(&outcome.columns);
                            match outcome.rows {
                                Some(rows) => {
                                    self.rowcount = rows;
                                },
                                None => {},
                            }
                            return ExecuteAction::Return(Ok(()));
                        },
                    }
                }
            },
        }
        ExecuteAction::Return(
            Err(
                StructuredError::new(
                    ErrorKind::InterfaceError,
                    "event does not fit the state of the cursor",
                ),
            ),
        )
    }
}

} // verus!
