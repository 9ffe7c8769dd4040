//! The shape in which a cursor hands out the rows of a result: by position,
//! or keyed by column name.
//!
//! Where two columns of a result have one name, a keyed row holds the name
//! once: at the place of the first of them, with the value of the last. That
//! is what assigning the columns to their names in order gives.

use vstd::prelude::*;
use crate::cursor::{
    closed_cursor_message, ColumnDescription, ColumnDescriptionView, CursorView, PyCursor,
};
use crate::error::{plain_error, ErrorKind, StructuredError, StructuredErrorView};
use crate::params::bound_view;
use crate::types::{SqlParam, SqlParamView};

verus! {

/// One row of a result.
#[derive(Debug, PartialEq, Eq)]
pub enum Row {
    /// The values in the order of the columns.
    Positional(Vec<SqlParam>),
    /// The values with the names of their columns, in the order of the
    /// columns, each name once.
    Keyed(Vec<(String, SqlParam)>),
}

/// A name and the value under it.
pub type Entry = (Seq<char>, SqlParamView);

/// What a `Row` holds.
pub enum RowView {
    Positional(Seq<SqlParamView>),
    Keyed(Seq<Entry>),
}

/// The entries of a keyed row, each by what it holds.
pub open spec fn entries_view(entries: Seq<(String, SqlParam)>) -> Seq<Entry> {
    entries.map_values(|e: (String, SqlParam)| (e.0@, e.1@))
}

impl View for Row {
    type V = RowView;

    open spec fn view(&self) -> RowView {
        match self {
            Row::Positional(values) => RowView::Positional(bound_view(values@)),
            Row::Keyed(entries) => RowView::Keyed(entries_view(entries@)),
        }
    }
}

/// The place of the first entry under `name`; the number of entries where
/// there is none.
pub open spec fn key_index(entries: Seq<Entry>, name: Seq<char>) -> int
    decreases entries.len(),
{
    if entries.len() == 0 {
        0
    } else if entries[0].0 == name {
        0
    } else {
        1 + key_index(entries.skip(1), name)
    }
}

/// The entries after `value` is assigned to `name`: in place of the entry
/// under that name where there is one, at the end where there is none.
pub open spec fn assign(entries: Seq<Entry>, name: Seq<char>, value: SqlParamView) -> Seq<Entry> {
    let at = key_index(entries, name);
    if at < entries.len() {
        entries.update(at, (name, value))
    } else {
        entries.push((name, value))
    }
}

/// The entries of a keyed row: each column in order is assigned to its name.
pub open spec fn keyed(names: Seq<Seq<char>>, values: Seq<SqlParamView>) -> Seq<Entry>
    decreases names.len(),
{
    if names.len() == 0 || values.len() != names.len() {
        Seq::empty()
    } else {
        assign(keyed(names.drop_last(), values.drop_last()), names.last(), values.last())
    }
}

/// The names of the columns that a description describes.
pub open spec fn column_names(description: Seq<ColumnDescriptionView>) -> Seq<Seq<char>> {
    description.map_values(|d: ColumnDescriptionView| d.name)
}

/// The error of a row asked of a cursor that holds no result.
pub open spec fn no_result_message() -> Seq<char> {
    "cursor holds no result"@
}

/// The error of a row that has not one value for each column.
pub open spec fn misfit_message() -> Seq<char> {
    "row does not fit the description"@
}

/// The row that a cursor makes of the values of one row of its result: an
/// interface error from a closed cursor, from one without a description, and
/// for values that are not as many as the columns; else the values by
/// position, or keyed by column name where the cursor was made for that.
pub open spec fn shaped(cursor: CursorView, values: Seq<SqlParamView>) -> Result<
    RowView,
    StructuredErrorView,
> {
    if cursor.closed {
        Err(plain_error(ErrorKind::InterfaceError, closed_cursor_message()))
    } else {
        match cursor.description {
            None => Err(plain_error(ErrorKind::InterfaceError, no_result_message())),
            Some(description) => if description.len() != values.len() {
                Err(plain_error(ErrorKind::InterfaceError, misfit_message()))
            } else if cursor.as_dict {
                Ok(RowView::Keyed(keyed(column_names(description), values)))
            } else {
                Ok(RowView::Positional(values))
            },
        }
    }
}

/// A row or the error in its place, each by what it holds.
pub open spec fn row_view(result: Result<Row, StructuredError>) -> Result<
    RowView,
    StructuredErrorView,
> {
    match result {
        Ok(row) => Ok(row@),
        Err(e) => Err(e@),
    }
}

/// The place before which no entry is under `name`, and at which one is or
/// the entries end, is the place of the first entry under `name`.
pub proof fn lemma_key_index(entries: Seq<Entry>, name: Seq<char>, at: int)
    requires
        0 <= at <= entries.len(),
        forall|j: int| 0 <= j < at ==> (#[trigger] entries[j]).0 != name,
        at < entries.len() ==> entries[at].0 == name,
    ensures
        key_index(entries, name) == at,
    decreases entries.len(),
{
    if entries.len() > 0 && at > 0 {
        assert(entries[0].0 != name);
        let rest = entries.skip(1);
        assert forall|j: int| 0 <= j < at - 1 implies (#[trigger] rest[j]).0 != name by {
            assert(rest[j] == entries[j + 1]);
        }
        lemma_key_index(rest, name, at - 1);
    }
}

/// The place of the first entry under `name` lies within the entries or at
/// their end; no entry before it is under `name`, and the entry at it is.
pub proof fn lemma_key_index_is_first(entries: Seq<Entry>, name: Seq<char>)
    ensures
        0 <= key_index(entries, name) <= entries.len(),
        forall|j: int| 0 <= j < key_index(entries, name) ==> (#[trigger] entries[j]).0 != name,
        key_index(entries, name) < entries.len() ==> entries[key_index(entries, name)].0 == name,
    decreases entries.len(),
{
    if entries.len() > 0 && entries[0].0 != name {
        let rest = entries.skip(1);
        lemma_key_index_is_first(rest, name);
        let at = key_index(entries, name);
        assert forall|j: int| 0 <= j < at implies (#[trigger] entries[j]).0 != name by {
            if j > 0 {
                assert(entries[j] == rest[j - 1]);
            }
        }
        if at < entries.len() {
            assert(entries[at] == rest[at - 1]);
        }
    }
}

/// Whether no two entries are under one name.
pub open spec fn keys_distinct(entries: Seq<Entry>) -> bool {
    forall|i: int, j: int|
        0 <= i < j < entries.len() ==> (#[trigger] entries[i]).0 != (#[trigger] entries[j]).0
}

/// The place of the last column of that name; -1 where no column has it.
pub open spec fn last_column(names: Seq<Seq<char>>, name: Seq<char>) -> int
    decreases names.len(),
{
    if names.len() == 0 {
        -1
    } else if names.last() == name {
        names.len() - 1
    } else {
        last_column(names.drop_last(), name)
    }
}

/// The last column of a name is a column of that name, and no later column
/// has the name.
pub proof fn lemma_last_column(names: Seq<Seq<char>>, name: Seq<char>)
    ensures
        -1 <= last_column(names, name) < names.len(),
        last_column(names, name) >= 0 ==> names[last_column(names, name)] == name,
        forall|j: int| last_column(names, name) < j < names.len() ==> #[trigger] names[j] != name,
    decreases names.len(),
{
    if names.len() > 0 && names.last() != name {
        let front = names.drop_last();
        lemma_last_column(front, name);
        assert forall|j: int| last_column(names, name) < j < names.len() implies #[trigger] names[j]
            != name by {
            if j < front.len() {
                assert(names[j] == front[j]);
            }
        }
    }
}

/// Assigning keeps the names apart, puts the value under the name, and
/// leaves every other name at its place with its value.
pub proof fn lemma_assign(entries: Seq<Entry>, name: Seq<char>, value: SqlParamView, other: Seq<char>)
    requires
        keys_distinct(entries),
    ensures
        keys_distinct(assign(entries, name, value)),
        key_index(assign(entries, name, value), name) == key_index(entries, name),
        key_index(entries, name) < assign(entries, name, value).len(),
        assign(entries, name, value)[key_index(entries, name)] == (name, value),
        other != name ==> {
            let at = key_index(entries, other);
            &&& (at < entries.len()) == (key_index(assign(entries, name, value), other) < assign(
                entries,
                name,
                value,
            ).len())
            &&& at < entries.len() ==> key_index(assign(entries, name, value), other) == at
                && assign(entries, name, value)[at] == entries[at]
        },
{
    let after = assign(entries, name, value);
    let at = key_index(entries, name);
    lemma_key_index_is_first(entries, name);
    assert forall|i: int, j: int| 0 <= i < j < after.len() implies (#[trigger] after[i]).0 != (
    #[trigger] after[j]).0 by {
        if at < entries.len() {
            assert(after[i].0 == entries[i].0);
            assert(after[j].0 == entries[j].0);
        } else {
            if j < entries.len() {
                assert(after[i] == entries[i]);
                assert(after[j] == entries[j]);
            } else {
                assert(after[i] == entries[i]);
            }
        }
    }
    assert forall|j: int| 0 <= j < at implies (#[trigger] after[j]).0 != name by {
        assert(after[j] == entries[j]);
    }
    lemma_key_index(after, name, at);
    if other != name {
        let place = key_index(entries, other);
        lemma_key_index_is_first(entries, other);
        if place < entries.len() {
            assert forall|j: int| 0 <= j < place implies (#[trigger] after[j]).0 != other by {
                assert(after[j].0 == entries[j].0);
            }
            assert(after[place] == entries[place]);
            lemma_key_index(after, other, place);
        } else {
            assert forall|j: int| 0 <= j < after.len() implies (#[trigger] after[j]).0 != other by {
                if j < entries.len() {
                    assert(after[j].0 == entries[j].0);
                }
            }
            lemma_key_index(after, other, after.len() as int);
        }
    }
}

/// A keyed row holds each name once. A name is in it exactly where a column
/// has the name, and the value under it is that of the last such column.
pub proof fn lemma_keyed_last_wins(names: Seq<Seq<char>>, values: Seq<SqlParamView>, name: Seq<char>)
    requires
        names.len() == values.len(),
    ensures
        keys_distinct(keyed(names, values)),
        keyed(names, values).len() <= names.len(),
        (last_column(names, name) >= 0) == (key_index(keyed(names, values), name) < keyed(
            names,
            values,
        ).len()),
        last_column(names, name) >= 0 ==> keyed(names, values)[key_index(
            keyed(names, values),
            name,
        )] == (name, values[last_column(names, name)]),
    decreases names.len(),
{
    if names.len() > 0 {
        let front = keyed(names.drop_last(), values.drop_last());
        lemma_keyed_last_wins(names.drop_last(), values.drop_last(), name);
        lemma_keyed_last_wins(names.drop_last(), values.drop_last(), names.last());
        lemma_assign(front, names.last(), values.last(), name);
        lemma_last_column(names.drop_last(), name);
        lemma_key_index_is_first(front, names.last());
    } else {
        assert(keyed(names, values).len() == 0);
    }
}

/// The place of the first column of that name; the number of columns where
/// no column has it.
pub open spec fn first_column(names: Seq<Seq<char>>, name: Seq<char>) -> int
    decreases names.len(),
{
    if names.len() == 0 {
        0
    } else if first_column(names.drop_last(), name) < names.len() - 1 {
        first_column(names.drop_last(), name)
    } else if names.last() == name {
        names.len() - 1
    } else {
        names.len() as int
    }
}

/// The first column of a name is a column of that name, no earlier column
/// has the name, and there is one exactly where there is a last.
pub proof fn lemma_first_column(names: Seq<Seq<char>>, name: Seq<char>)
    ensures
        0 <= first_column(names, name) <= names.len(),
        first_column(names, name) < names.len() ==> names[first_column(names, name)] == name,
        forall|j: int| 0 <= j < first_column(names, name) ==> #[trigger] names[j] != name,
        (first_column(names, name) < names.len()) == (last_column(names, name) >= 0),
    decreases names.len(),
{
    if names.len() > 0 {
        let front = names.drop_last();
        lemma_first_column(front, name);
        assert forall|j: int| 0 <= j < first_column(names, name) implies #[trigger] names[j]
            != name by {
            if j < front.len() {
                assert(names[j] == front[j]);
            }
        }
        if first_column(front, name) < front.len() {
            assert(names[first_column(front, name)] == front[first_column(front, name)]);
        }
    }
}

/// The names of a keyed row stand in the order in which they first come
/// among the columns.
pub proof fn lemma_keyed_order(
    names: Seq<Seq<char>>,
    values: Seq<SqlParamView>,
    one: Seq<char>,
    other: Seq<char>,
)
    requires
        names.len() == values.len(),
        first_column(names, one) < names.len(),
        first_column(names, other) < names.len(),
    ensures
        (key_index(keyed(names, values), one) < key_index(keyed(names, values), other)) == (
        first_column(names, one) < first_column(names, other)),
    decreases names.len(),
{
    if names.len() > 0 {
        let front_names = names.drop_last();
        let front_values = values.drop_last();
        let front = keyed(front_names, front_values);
        let last = names.last();
        lemma_first_column(names, one);
        lemma_first_column(names, other);
        lemma_first_column(front_names, one);
        lemma_first_column(front_names, other);
        lemma_keyed_last_wins(front_names, front_values, one);
        lemma_keyed_last_wins(front_names, front_values, other);
        lemma_keyed_last_wins(names, values, one);
        lemma_keyed_last_wins(names, values, other);
        lemma_assign(front, last, values.last(), one);
        lemma_assign(front, last, values.last(), other);
        lemma_key_index_is_first(front, last);
        let one_before = first_column(front_names, one) < front_names.len();
        let other_before = first_column(front_names, other) < front_names.len();
        if one_before && other_before {
            lemma_keyed_order(front_names, front_values, one, other);
        }
    }
}

/// Where no two columns have one name, a keyed row holds the columns in
/// their order, each name with its value.
pub proof fn lemma_keyed_without_duplicates(names: Seq<Seq<char>>, values: Seq<SqlParamView>)
    requires
        names.len() == values.len(),
        forall|i: int, j: int| 0 <= i < j < names.len() ==> #[trigger] names[i] != #[trigger] names[j],
    ensures
        keyed(names, values) == Seq::new(names.len(), |i: int| (names[i], values[i])),
    decreases names.len(),
{
    let wanted = Seq::new(names.len(), |i: int| (names[i], values[i]));
    if names.len() > 0 {
        let front_names = names.drop_last();
        let front_values = values.drop_last();
        assert forall|i: int, j: int| 0 <= i < j < front_names.len() implies #[trigger] front_names[i]
            != #[trigger] front_names[j] by {
            assert(front_names[i] == names[i]);
            assert(front_names[j] == names[j]);
        }
        lemma_keyed_without_duplicates(front_names, front_values);
        let front = keyed(front_names, front_values);
        assert forall|j: int| 0 <= j < front.len() implies (#[trigger] front[j]).0 != names.last() by {
            assert(front[j].0 == names[j]);
        }
        lemma_key_index(front, names.last(), front.len() as int);
        assert(keyed(names, values) =~= wanted);
    } else {
        assert(keyed(names, values) =~= wanted);
    }
}

/// Makes the entries of a keyed row from the names of the columns and the
/// values of the row.
fn key_values(description: &Vec<ColumnDescription>, values: Vec<SqlParam>) -> (entries: Vec<
    (String, SqlParam),
>)
    requires
        description@.len() == values@.len(),
    ensures
        entries_view(entries@) == keyed(
            column_names(description@.map_values(|d: ColumnDescription| d@)),
            bound_view(values@),
        ),
{
    let ghost names = column_names(description@.map_values(|d: ColumnDescription| d@));
    let ghost all = bound_view(values@);
    let n = description.len();
    let mut rest = values;
    let mut entries: Vec<(String, SqlParam)> = Vec::new();
    let mut i: usize = 0;
    proof {
        assert(entries_view(entries@) =~= Seq::<Entry>::empty());
        assert(names.take(0).len() == 0);
        assert(rest@.skip(0) =~= rest@);
    }
    while i < n
        invariant
            i <= n,
            n == description@.len(),
            names == column_names(description@.map_values(|d: ColumnDescription| d@)),
            names.len() == n,
            all.len() == n,
            bound_view(rest@) == all.skip(i as int),
            entries_view(entries@) == keyed(names.take(i as int), all.take(i as int)),
        decreases n - i,
    {
        proof {
            assert(bound_view(rest@).len() == rest@.len());
            assert(bound_view(rest@)[0] == rest@[0]@);
        }
        let ghost old_rest = rest@;
        let value = rest.remove(0);
        let name = description[i].name.clone();
        let ghost before = entries_view(entries@);
        proof {
            assert forall|j: int| 0 <= j < rest@.len() implies bound_view(rest@)[j] == all.skip(
                i + 1,
            )[j] by {
                assert(rest@[j] == old_rest[j + 1]);
                assert(bound_view(old_rest)[j + 1] == old_rest[j + 1]@);
                assert(all.skip(i as int)[j + 1] == all[i + j + 1]);
            }
            assert(bound_view(rest@) =~= all.skip(i + 1));
            assert(value@ == all[i as int]);
            assert(name@ == names[i as int]);
            assert(names.take(i + 1).drop_last() =~= names.take(i as int));
            assert(all.take(i + 1).drop_last() =~= all.take(i as int));
            assert(names.take(i + 1).last() == names[i as int]);
            assert(all.take(i + 1).last() == all[i as int]);
        }
        let mut at: usize = 0;
        while at < entries.len() && !(entries[at].0 == name)
            invariant
                at <= entries.len(),
                before == entries_view(entries@),
                forall|j: int| 0 <= j < at ==> (#[trigger] before[j]).0 != name@,
            decreases entries.len() - at,
        {
            proof {
                assert(before[at as int] == (entries@[at as int].0@, entries@[at as int].1@));
            }
            at = at + 1;
        }
        proof {
            if at < entries.len() {
                assert(before[at as int] == (entries@[at as int].0@, entries@[at as int].1@));
            }
            lemma_key_index(before, name@, at as int);
        }
        if at < entries.len() {
            entries.set(at, (name, value));
            proof {
                assert(entries_view(entries@) =~= before.update(at as int, (name@, value@)));
            }
        } else {
            entries.push((name, value));
            proof {
                assert(entries_view(entries@) =~= before.push((name@, value@)));
            }
        }
        i = i + 1;
    }
    proof {
        assert(names.take(n as int) =~= names);
        assert(all.take(n as int) =~= all);
    }
    entries
}

impl PyCursor {
    /// Makes the row that this cursor hands out of the values of one row of
    /// its result.
    pub fn shape_row(&self, values: Vec<SqlParam>) -> (result: Result<Row, StructuredError>)
        ensures
            row_view(result) == shaped(self@, bound_view(values@)),
    {
        if self.closed() {
            return Err(StructuredError::new(ErrorKind::InterfaceError, "cursor is closed"));
        }
        match self.description() {
            None => Err(StructuredError::new(ErrorKind::InterfaceError, "cursor holds no result")),
            Some(description) => {
                if description.len() != values.len() {
                    Err(
                        StructuredError::new(
                            ErrorKind::InterfaceError,
                            "row does not fit the description",
                        ),
                    )
                } else if self.as_dict() {
                    Ok(Row::Keyed(key_values(description, values)))
                } else {
                    Ok(Row::Positional(values))
                }
            },
        }
    }
}

} // verus!
