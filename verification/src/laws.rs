//! What holds of the adapters and of the cursor for every input, proved from
//! the contracts of the functions.

use vstd::prelude::*;
use crate::calendar::{
    civil_of_timestamp, day_number, is_calendar_date, is_gregorian_date,
    lemma_civil_of_timestamp, lemma_epoch_seconds_split, lemma_timestamp_has_civil,
    lemma_timestamp_range_is_year_range, timestamp_in_range, Civil,
};
use crate::chrono_api::zone_resolution;
use crate::connection::{closed_connection_error, ConnectionAccess};
use crate::cursor::{
    closed_cursor_message, refuse, step, CursorView, ExecuteActionView, ExecuteEventView,
    ExecuteStage, StatementOutcomeView,
};
use crate::error::{
    engine_error, EngineFailureView, ErrorKind, Operation, StructuredErrorView,
};
use crate::params::{params_outcome, ParamView};
use crate::stored::{lemma_read_back, read_stored, stored_instant};
use crate::text::{date_text, digit_char, padded_digits, year_text};
use crate::types::{
    date_of_ticks_param, date_param, earlier, instant_param, resolution_param, timestamp_param,
    SqlParamView, TimestampView,
};
use crate::zone::LocalResolution;

verus! {

/// A date is stored in ten characters where its year has at most four digits:
/// four digits of the year, two of the month and two of the day, each padded
/// with zeros, and `-` between them.
pub proof fn law_date_text_is_padded(year: int, month: int, day: int)
    requires
        is_calendar_date(year, month, day),
        0 <= year <= 9999,
    ensures
        date_param(year, month, day) == Ok::<SqlParamView, StructuredErrorView>(
            SqlParamView::Text(
                seq![
                    digit_char(year / 1000),
                    digit_char((year / 100) % 10),
                    digit_char((year / 10) % 10),
                    digit_char(year % 10),
                    '-',
                    digit_char(month / 10),
                    digit_char(month % 10),
                    '-',
                    digit_char(day / 10),
                    digit_char(day % 10),
                ],
            ),
        ),
{
    reveal_with_fuel(padded_digits, 5);
    assert(year_text(year) =~= seq![
        digit_char(year / 1000),
        digit_char((year / 100) % 10),
        digit_char((year / 10) % 10),
        digit_char(year % 10),
    ]);
    assert(date_text(year, month, day) =~= seq![
        digit_char(year / 1000),
        digit_char((year / 100) % 10),
        digit_char((year / 10) % 10),
        digit_char(year % 10),
        '-',
        digit_char(month / 10),
        digit_char(month % 10),
        '-',
        digit_char(day / 10),
        digit_char(day % 10),
    ]);
}

/// A date converts exactly where its day exists in the calendar and its year
/// can be stored; elsewhere the conversion fails with a data error.
pub proof fn law_date_converts_or_fails(year: int, month: int, day: int)
    ensures
        date_param(year, month, day) is Ok <==> is_calendar_date(year, month, day),
        date_param(year, month, day) matches Err(e) ==> e.kind == ErrorKind::DataError,
        !(1 <= month <= 12) ==> date_param(year, month, day) is Err,
        month == 2 && day >= 30 ==> date_param(year, month, day) is Err,
{
}

/// The ticks of a date convert as the UTC calendar date of that instant does.
pub proof fn law_date_from_ticks(ticks: i64)
    ensures
        ({
            let c = civil_of_timestamp(ticks as int);
            &&& is_gregorian_date(c.year, c.month, c.day)
            &&& day_number(c.year, c.month, c.day) == ticks as int / 86400
            &&& date_of_ticks_param(ticks as int) == date_param(c.year, c.month, c.day)
        }),
{
    lemma_timestamp_has_civil(ticks as int);
    lemma_epoch_seconds_split(civil_of_timestamp(ticks as int));
}

/// The ticks of a date convert as any date of the calendar does whose day
/// number is the day of the instant.
pub proof fn law_date_from_ticks_by_day(ticks: i64, year: int, month: int, day: int)
    requires
        is_gregorian_date(year, month, day),
        day_number(year, month, day) == ticks as int / 86400,
    ensures
        date_of_ticks_param(ticks as int) == date_param(year, month, day),
{
    let rest = ticks as int % 86400;
    let c = Civil {
        year,
        month,
        day,
        hour: rest / 3600,
        minute: (rest % 3600) / 60,
        second: rest % 60,
    };
    lemma_civil_of_timestamp(c, ticks as int);
    lemma_timestamp_range_is_year_range(c);
}

/// A local date and time that its zone showed twice converts as the earlier
/// of the two instants, whichever of them comes first in the pair.
pub proof fn law_ambiguous_takes_earlier(t: TimestampView, a: i64, b: i64)
    requires
        t.local.is_representable(),
        zone_resolution(t.zone, t.local.epoch_seconds()) == LocalResolution::Ambiguous(a, b),
    ensures
        timestamp_param(t) == instant_param(earlier(a, b) as int),
        timestamp_param(t) == resolution_param(LocalResolution::Ambiguous(b, a)),
        earlier(a, b) <= a,
        earlier(a, b) <= b,
{
}

/// What a date and time in a zone converts to depends on nothing but its
/// fields and the name of its zone.
pub proof fn law_conversion_is_a_function(first: TimestampView, second: TimestampView)
    requires
        first.local == second.local,
        first.zone == second.zone,
    ensures
        timestamp_param(first) == timestamp_param(second),
{
}

/// A local date and time that the clocks of its zone skipped does not
/// convert: the conversion fails with a data error, whatever the instants
/// around the gap.
pub proof fn law_gap_fails(t: TimestampView)
    requires
        t.local.is_representable(),
        zone_resolution(t.zone, t.local.epoch_seconds()) == LocalResolution::Gap,
    ensures
        timestamp_param(t) matches Err(e) && e.kind == ErrorKind::DataError,
{
}

/// Storing an instant that can be stored and reading the text back gives the
/// instant, to the second.
pub proof fn law_stored_instant_reads_back(ticks: i64)
    requires
        timestamp_in_range(ticks as int),
    ensures
        instant_param(ticks as int) matches Ok(SqlParamView::Text(text)) && stored_instant(text)
            == Some(ticks as int),
{
    lemma_timestamp_has_civil(ticks as int);
    lemma_read_back(civil_of_timestamp(ticks as int));
}

/// A local date and time that its zone showed once is stored as a text that
/// reads back as the instant at which the zone showed it.
pub proof fn law_timestamp_reads_back(t: TimestampView, instant: i64)
    requires
        t.local.is_representable(),
        zone_resolution(t.zone, t.local.epoch_seconds()) == LocalResolution::Single(instant),
        timestamp_in_range(instant as int),
    ensures
        timestamp_param(t) matches Ok(SqlParamView::Text(text)) && stored_instant(text) == Some(
            instant as int,
        ),
{
    law_stored_instant_reads_back(instant);
}

/// A text that reads back as an instant is the text that storing the instant
/// writes: reading and storing again changes nothing.
pub proof fn law_reading_then_storing(text: Seq<char>)
    requires
        stored_instant(text) is Some,
    ensures
        instant_param(stored_instant(text)->Some_0) == Ok::<SqlParamView, StructuredErrorView>(
            SqlParamView::Text(text),
        ),
{
    let c = read_stored(text)->Some_0;
    lemma_civil_of_timestamp(c, c.epoch_seconds());
    lemma_timestamp_range_is_year_range(c);
}

/// What the engine answers in one call of `execute`.
pub struct EngineAnswers {
    /// What looking the connection up finds.
    pub access: ConnectionAccess,
    /// What preparing the statement gives.
    pub prepared: Result<(), EngineFailureView>,
    /// What running the statement gives.
    pub ran: Result<StatementOutcomeView, EngineFailureView>,
}

/// The next step of a call, unless the call is over.
pub open spec fn then_step(
    state: (CursorView, ExecuteActionView),
    event: ExecuteEventView,
    params: Seq<ParamView>,
) -> (CursorView, ExecuteActionView) {
    match state.1 {
        ExecuteActionView::Return(_) => state,
        _ => step(state.0, event, params),
    }
}

/// One call of `execute` from beginning to end: the cursor after it, and the
/// result of the call. The events come in the order of the protocol, and each
/// answer of the engine is used only where the cursor asks for it.
pub open spec fn execute_call(
    cursor: CursorView,
    answers: EngineAnswers,
    params: Seq<ParamView>,
) -> (CursorView, Result<(), StructuredErrorView>) {
    let called = step(cursor, ExecuteEventView::Called, params);
    let resolved = then_step(called, ExecuteEventView::ConnectionFound(answers.access), params);
    let prepared = then_step(resolved, ExecuteEventView::Prepared(answers.prepared), params);
    let ran = then_step(prepared, ExecuteEventView::Ran(answers.ran), params);
    (
        ran.0,
        match ran.1 {
            ExecuteActionView::Return(result) => result,
            _ => Ok(()),
        },
    )
}

/// Whether the failure carries a constraint code: 19, or an extended code
/// with 19 in its lowest eight bits.
pub open spec fn is_constraint_failure(failure: EngineFailureView) -> bool {
    failure matches EngineFailureView::Coded { extended_code, .. } && extended_code >= 0
        && extended_code % 256 == 19
}

/// A closed cursor refuses whatever it is told, with an interface error, and
/// keeps its description and its row count.
pub proof fn law_closed_cursor_refuses(
    cursor: CursorView,
    event: ExecuteEventView,
    params: Seq<ParamView>,
)
    requires
        cursor.closed,
    ensures
        step(cursor, event, params).1 == refuse(closed_cursor_message()),
        step(cursor, event, params).0.description == cursor.description,
        step(cursor, event, params).0.rowcount == cursor.rowcount,
        step(cursor, event, params).0.closed,
{
}

/// A call of `execute` on a closed cursor fails with an interface error
/// whatever the engine would answer, and leaves description and row count as
/// they were.
pub proof fn law_execute_on_closed_cursor(
    cursor: CursorView,
    answers: EngineAnswers,
    params: Seq<ParamView>,
)
    requires
        cursor.closed,
    ensures
        execute_call(cursor, answers, params).1 matches Err(e) && e.kind
            == ErrorKind::InterfaceError,
        execute_call(cursor, answers, params).0.description == cursor.description,
        execute_call(cursor, answers, params).0.rowcount == cursor.rowcount,
{
}

/// A call of `execute` on an open cursor whose connection was closed fails
/// with the interface error "connection is closed", whatever the statement,
/// its parameters and the engine, and leaves the cursor as it was.
pub proof fn law_execute_on_closed_connection(
    cursor: CursorView,
    answers: EngineAnswers,
    params: Seq<ParamView>,
)
    requires
        !cursor.closed,
        cursor.stage == ExecuteStage::Idle,
        answers.access == ConnectionAccess::Closed,
    ensures
        execute_call(cursor, answers, params) == (
            cursor,
            Err::<(), StructuredErrorView>(closed_connection_error()),
        ),
        closed_connection_error().kind == ErrorKind::InterfaceError,
        closed_connection_error().message == "connection is closed"@,
{
}

/// A constraint code from the engine ends a call of `execute` with an
/// integrity error, at the preparation and at the run alike; a failure
/// without a code ends it with a database error, the default of both.
pub proof fn law_engine_failure_in_execute(
    cursor: CursorView,
    answers: EngineAnswers,
    params: Seq<ParamView>,
)
    requires
        !cursor.closed,
        cursor.stage == ExecuteStage::Idle,
        answers.access == ConnectionAccess::Open,
    ensures
        answers.prepared matches Err(failure) ==> execute_call(cursor, answers, params).1 == Err::<
            (),
            StructuredErrorView,
        >(engine_error(failure, ErrorKind::DatabaseError, Operation::PreparingQuery)),
        answers.prepared is Ok && params_outcome(params) is Ok ==> (answers.ran matches Err(
            failure,
        ) ==> execute_call(cursor, answers, params).1 == Err::<(), StructuredErrorView>(
            engine_error(failure, ErrorKind::DatabaseError, Operation::ExecutingQuery),
        )),
        answers.prepared matches Err(failure) ==> (is_constraint_failure(failure)
            ==> execute_call(cursor, answers, params).1->Err_0.kind == ErrorKind::IntegrityError),
        answers.prepared matches Err(failure) ==> (failure is Uncoded ==> execute_call(
            cursor,
            answers,
            params,
        ).1->Err_0.kind == ErrorKind::DatabaseError),
        answers.prepared is Ok && params_outcome(params) is Ok ==> (answers.ran matches Err(
            failure,
        ) ==> (is_constraint_failure(failure) ==> execute_call(cursor, answers, params).1->Err_0.kind
            == ErrorKind::IntegrityError)),
        answers.prepared is Ok && params_outcome(params) is Ok ==> (answers.ran matches Err(
            failure,
        ) ==> (failure is Uncoded ==> execute_call(cursor, answers, params).1->Err_0.kind
            == ErrorKind::DatabaseError)),
{
}

/// A call of `execute` that fails leaves the cursor as it was; one that
/// succeeds takes the description of the result and, where the engine knows
/// one, its number of rows. A parameter that does not convert ends the call
/// before the statement runs, with the error of the conversion.
pub proof fn law_execute_outcome(
    cursor: CursorView,
    answers: EngineAnswers,
    params: Seq<ParamView>,
)
    requires
        !cursor.closed,
        cursor.stage == ExecuteStage::Idle,
    ensures
        execute_call(cursor, answers, params).1 is Err ==> execute_call(cursor, answers, params).0
            == cursor,
        execute_call(cursor, answers, params).1 is Ok <==> (answers.access
            == ConnectionAccess::Open && answers.prepared is Ok && params_outcome(params) is Ok
            && answers.ran is Ok),
        execute_call(cursor, answers, params).1 is Ok ==> execute_call(cursor, answers, params).0
            == cursor.after(answers.ran->Ok_0),
        answers.access == ConnectionAccess::Open && answers.prepared is Ok ==> (params_outcome(
            params,
        ) matches Err(e) ==> execute_call(cursor, answers, params).1 == Err::<
            (),
            StructuredErrorView,
        >(e)),
{
}

} // verus!
