//! The parameters of a statement as the host supplies them, one of a closed
//! set of shapes each, and their conversion in the order supplied.

use vstd::prelude::*;
use crate::error::{plain_error, ErrorKind, StructuredError, StructuredErrorView};
use crate::types::{
    date_of_ticks_param, instant_param, outcome_view, time_of_ticks_param, timestamp_param,
    PyBinary, PyDate, PyDateFromTicks, PyTime, PyTimeFromTicks, PyTimestamp,
    PyTimestampFromTicks, SqlParam, SqlParamView, TimestampView,
};

verus! {

/// One parameter of a statement.
#[derive(Debug)]
pub enum Param {
    Null,
    Integer(i64),
    /// A floating-point number, as the 64 bits of its IEEE 754 form.
    Real(u64),
    Text(String),
    Blob(Vec<u8>),
    Date(PyDate),
    Time(PyTime),
    Timestamp(PyTimestamp),
    DateFromTicks(PyDateFromTicks),
    TimeFromTicks(PyTimeFromTicks),
    TimestampFromTicks(PyTimestampFromTicks),
    Binary(PyBinary),
    /// A value of the host in none of the shapes above.
    Unrecognized,
}

/// What a `Param` holds, text and bytes as sequences.
pub enum ParamView {
    Null,
    Integer(i64),
    Real(u64),
    Text(Seq<char>),
    Blob(Seq<u8>),
    Date(PyDate),
    Time(PyTime),
    Timestamp(TimestampView),
    DateFromTicks(PyDateFromTicks),
    TimeFromTicks(PyTimeFromTicks),
    TimestampFromTicks(PyTimestampFromTicks),
    Binary(Seq<u8>),
    Unrecognized,
}

impl View for Param {
    type V = ParamView;

    open spec fn view(&self) -> ParamView {
        match self {
            Param::Null => ParamView::Null,
            Param::Integer(i) => ParamView::Integer(*i),
            Param::Real(bits) => ParamView::Real(*bits),
            Param::Text(t) => ParamView::Text(t@),
            Param::Blob(b) => ParamView::Blob(b@),
            Param::Date(d) => ParamView::Date(*d),
            Param::Time(t) => ParamView::Time(*t),
            Param::Timestamp(t) => ParamView::Timestamp(t@),
            Param::DateFromTicks(d) => ParamView::DateFromTicks(*d),
            Param::TimeFromTicks(t) => ParamView::TimeFromTicks(*t),
            Param::TimestampFromTicks(t) => ParamView::TimestampFromTicks(*t),
            Param::Binary(b) => ParamView::Binary(b@),
            Param::Unrecognized => ParamView::Unrecognized,
        }
    }
}

impl Clone for Param {
    fn clone(&self) -> (copy: Param)
        ensures
            copy@ == self@,
    {
        match self {
            Param::Null => Param::Null,
            Param::Integer(i) => Param::Integer(*i),
            Param::Real(bits) => Param::Real(*bits),
            Param::Text(t) => Param::Text(t.clone()),
            Param::Blob(b) => {
                let bytes = b.clone();
                assert(bytes@ =~= b@);
                Param::Blob(bytes)
            },
            Param::Date(d) => Param::Date(*d),
            Param::Time(t) => Param::Time(*t),
            Param::Timestamp(t) => Param::Timestamp(t.clone()),
            Param::DateFromTicks(d) => Param::DateFromTicks(*d),
            Param::TimeFromTicks(t) => Param::TimeFromTicks(*t),
            Param::TimestampFromTicks(t) => Param::TimestampFromTicks(*t),
            Param::Binary(b) => Param::Binary(b.clone()),
            Param::Unrecognized => Param::Unrecognized,
        }
    }
}

/// The message for a value in no shape that can be bound.
pub open spec fn shape_message() -> Seq<char> {
    "parameter is of a type that cannot be bound"@
}

/// What one parameter converts to: a native value to itself, a date or time
/// as its adapter says, binary data to a blob, and a value in no known shape
/// to a programming error.
pub open spec fn param_outcome(p: ParamView) -> Result<SqlParamView, StructuredErrorView> {
    match p {
        ParamView::Null => Ok(SqlParamView::Null),
        ParamView::Integer(i) => Ok(SqlParamView::Integer(i)),
        ParamView::Real(bits) => Ok(SqlParamView::Real(bits)),
        ParamView::Text(t) => Ok(SqlParamView::Text(t)),
        ParamView::Blob(b) => Ok(SqlParamView::Blob(b)),
        ParamView::Date(d) => d.param(),
        ParamView::Time(t) => t.param(),
        ParamView::Timestamp(t) => timestamp_param(t),
        ParamView::DateFromTicks(d) => date_of_ticks_param(d.ticks as int),
        ParamView::TimeFromTicks(t) => time_of_ticks_param(t.ticks as int),
        ParamView::TimestampFromTicks(t) => instant_param(t.ticks as int),
        ParamView::Binary(b) => Ok(SqlParamView::Blob(b)),
        ParamView::Unrecognized => Err(plain_error(ErrorKind::ProgrammingError, shape_message())),
    }
}

/// The parameters of a statement, each by what it holds.
pub open spec fn params_view(params: Seq<Param>) -> Seq<ParamView> {
    params.map_values(|p: Param| p@)
}

/// The bound values of a statement, each by what it holds.
pub open spec fn bound_view(bound: Seq<SqlParam>) -> Seq<SqlParamView> {
    bound.map_values(|p: SqlParam| p@)
}

/// What binding gives: the values by what they hold, or what the error holds.
pub open spec fn bound_outcome_view(outcome: Result<Vec<SqlParam>, StructuredError>) -> Result<
    Seq<SqlParamView>,
    StructuredErrorView,
> {
    match outcome {
        Ok(bound) => Ok(bound_view(bound@)),
        Err(e) => Err(e@),
    }
}

/// What one conversion gives.
pub type Converted = Result<SqlParamView, StructuredErrorView>;

/// The values of conversions made in order: all of them where none failed,
/// else the error of the first that failed.
pub open spec fn in_order(outcomes: Seq<Converted>) -> Result<
    Seq<SqlParamView>,
    StructuredErrorView,
>
    decreases outcomes.len(),
{
    if outcomes.len() == 0 {
        Ok(Seq::empty())
    } else {
        match in_order(outcomes.drop_last()) {
            Err(e) => Err(e),
            Ok(values) => match outcomes.last() {
                Ok(value) => Ok(values.push(value)),
                Err(e) => Err(e),
            },
        }
    }
}

/// What the parameters of a statement convert to: the values in the order
/// supplied, or the error of the first parameter that fails.
pub open spec fn params_outcome(params: Seq<ParamView>) -> Result<
    Seq<SqlParamView>,
    StructuredErrorView,
> {
    in_order(params.map_values(|p: ParamView| param_outcome(p)))
}

impl Param {
    /// Converts the parameter to the form in which the engine binds it.
    pub fn to_sql_param(&self) -> (outcome: Result<SqlParam, StructuredError>)
        ensures
            outcome_view(outcome) == param_outcome(self@),
    {
        match self {
            Param::Null => Ok(SqlParam::Null),
            Param::Integer(i) => Ok(SqlParam::Integer(*i)),
            Param::Real(bits) => Ok(SqlParam::Real(*bits)),
            Param::Text(t) => Ok(SqlParam::Text(t.clone())),
            Param::Blob(b) => {
                let bytes = b.clone();
                assert(bytes@ =~= b@);
                Ok(SqlParam::Blob(bytes))
            },
            Param::Date(d) => d.to_sql_param(),
            Param::Time(t) => t.to_sql_param(),
            Param::Timestamp(t) => t.to_sql_param(),
            Param::DateFromTicks(d) => d.to_sql_param(),
            Param::TimeFromTicks(t) => t.to_sql_param(),
            Param::TimestampFromTicks(t) => t.to_sql_param(),
            Param::Binary(b) => b.to_sql_param(),
            Param::Unrecognized => Err(
                StructuredError::new(
                    ErrorKind::ProgrammingError,
                    "parameter is of a type that cannot be bound",
                ),
            ),
        }
    }
}

/// Converts the parameters of a statement in the order supplied, and stops at
/// the first that fails.
pub fn bind_params(params: &Vec<Param>) -> (outcome: Result<Vec<SqlParam>, StructuredError>)
    ensures
        bound_outcome_view(outcome) == params_outcome(params_view(params@)),
{
    let ghost outcomes = params_view(params@).map_values(|p: ParamView| param_outcome(p));
    let mut bound: Vec<SqlParam> = Vec::new();
    let mut i: usize = 0;
    proof {
        assert(outcomes.take(0).len() == 0);
        assert(bound_view(bound@) =~= Seq::<SqlParamView>::empty());
    }
    while i < params.len()
        invariant
            i <= params.len(),
            outcomes == params_view(params@).map_values(|p: ParamView| param_outcome(p)),
            in_order(outcomes.take(i as int)) == Ok::<Seq<SqlParamView>, StructuredErrorView>(
                bound_view(bound@),
            ),
        decreases params.len() - i,
    {
        proof {
            assert(outcomes.take(i + 1).drop_last() =~= outcomes.take(i as int));
            assert(outcomes.take(i + 1).last() == param_outcome(params@[i as int]@));
        }
        match params[i].to_sql_param() {
            Ok(value) => {
                let ghost old_bound = bound@;
                bound.push(value);
                proof {
                    assert(bound_view(bound@) =~= bound_view(old_bound).push(value@));
                }
            },
            Err(e) => {
                proof {
                    lemma_failure_stays(outcomes, i + 1);
                }
                return Err(e);
            },
        }
        i = i + 1;
    }
    proof {
        assert(outcomes.take(i as int) =~= outcomes);
    }
    Ok(bound)
}

/// A failure among the first conversions is the failure of them all.
pub proof fn lemma_failure_stays(outcomes: Seq<Converted>, n: int)
    requires
        0 <= n <= outcomes.len(),
        in_order(outcomes.take(n)) is Err,
    ensures
        in_order(outcomes) == in_order(outcomes.take(n)),
    decreases outcomes.len() - n,
{
    if n < outcomes.len() {
        assert(outcomes.take(n + 1).drop_last() =~= outcomes.take(n));
        lemma_failure_stays(outcomes, n + 1);
    } else {
        assert(outcomes.take(n) =~= outcomes);
    }
}

/// Where no conversion failed, the values are as many as the conversions, and
/// each is the value of the conversion at its place.
pub proof fn lemma_in_order_values(outcomes: Seq<Converted>)
    requires
        in_order(outcomes) is Ok,
    ensures
        in_order(outcomes)->Ok_0.len() == outcomes.len(),
        forall|i: int|
            0 <= i < outcomes.len() ==> #[trigger] outcomes[i] == Ok::<
                SqlParamView,
                StructuredErrorView,
            >(in_order(outcomes)->Ok_0[i]),
    decreases outcomes.len(),
{
    if outcomes.len() > 0 {
        let front = outcomes.drop_last();
        lemma_in_order_values(front);
        assert forall|i: int| 0 <= i < outcomes.len() implies #[trigger] outcomes[i] == Ok::<
            SqlParamView,
            StructuredErrorView,
        >(in_order(outcomes)->Ok_0[i]) by {
            if i < front.len() {
                assert(outcomes[i] == front[i]);
            }
        }
    }
}

/// Where a conversion failed, the error is that of the first that failed:
/// the one at the place that comes back.
pub proof fn lemma_in_order_failure(outcomes: Seq<Converted>) -> (at: int)
    requires
        in_order(outcomes) is Err,
    ensures
        0 <= at < outcomes.len(),
        outcomes[at] == Err::<SqlParamView, StructuredErrorView>(in_order(outcomes)->Err_0),
        forall|j: int| 0 <= j < at ==> (#[trigger] outcomes[j]) is Ok,
    decreases outcomes.len(),
{
    let front = outcomes.drop_last();
    if in_order(front) is Err {
        let at = lemma_in_order_failure(front);
        assert(outcomes[at] == front[at]);
        assert forall|j: int| 0 <= j < at implies (#[trigger] outcomes[j]) is Ok by {
            assert(outcomes[j] == front[j]);
        }
        at
    } else {
        lemma_in_order_values(front);
        let last = outcomes.len() - 1;
        assert forall|j: int| 0 <= j < last implies (#[trigger] outcomes[j]) is Ok by {
            assert(outcomes[j] == front[j]);
        }
        last
    }
}

} // verus!
