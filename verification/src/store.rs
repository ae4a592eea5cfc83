//! A model of the store.
//!
//! The store is reached over the network and is not part of this crate. The
//! model says how a store answers the requests of the table-filter
//! interface: it keeps rows in tables, selects the rows that satisfy all
//! filters of a request, and inserts, overwrites or removes as the verb
//! says. Columns that a request does not write are the store's to fill.

use crate::request::{Binding, Column, Datum, Query, Table, Verb};
use vstd::prelude::*;

verus! {

/// One row: the content of each column it has.
pub type Row = Map<Column, Datum>;

/// The rows of every table, in the order in which they were inserted.
pub ghost struct Store {
    pub wallets: Seq<Row>,
    pub settings: Seq<Row>,
    pub transactions: Seq<Row>,
}

/// What the store hands back for one request, and the state it is in
/// afterwards.
pub ghost struct Answer {
    pub rows: Seq<Row>,
    pub after: Store,
}

impl Store {
    /// The rows of one table.
    pub open spec fn rows(self, table: Table) -> Seq<Row> {
        match table {
            Table::TrackedWallets => self.wallets,
            Table::CopyTradeSettings => self.settings,
            Table::Transactions => self.transactions,
        }
    }

    /// The store with the rows of one table replaced.
    pub open spec fn with_rows(self, table: Table, rows: Seq<Row>) -> Store {
        match table {
            Table::TrackedWallets => Store { wallets: rows, ..self },
            Table::CopyTradeSettings => Store { settings: rows, ..self },
            Table::Transactions => Store { transactions: rows, ..self },
        }
    }
}

/// Whether the row has the column and holds the datum there.
pub open spec fn holds(row: Row, binding: Binding) -> bool {
    row.dom().contains(binding.column) && row[binding.column] == binding.datum
}

/// Whether the row passes every filter.
pub open spec fn satisfies(row: Row, filters: Seq<Binding>) -> bool {
    forall|i: int| 0 <= i < filters.len() ==> holds(row, #[trigger] filters[i])
}

/// The test that a row passes every filter.
pub open spec fn matching(filters: Seq<Binding>) -> spec_fn(Row) -> bool {
    |row: Row| satisfies(row, filters)
}

/// The test that a row fails some filter.
pub open spec fn missing(filters: Seq<Binding>) -> spec_fn(Row) -> bool {
    |row: Row| !satisfies(row, filters)
}

/// What the fields write to a column: the datum of the last field for that
/// column, if there is one.
pub open spec fn assigned(fields: Seq<Binding>, column: Column) -> Option<Datum>
    decreases fields.len(),
{
    if fields.len() == 0 {
        None
    } else if fields.last().column == column {
        Some(fields.last().datum)
    } else {
        assigned(fields.drop_last(), column)
    }
}

/// The row after the fields were written to it: written columns hold what
/// was written, all others are as before.
pub open spec fn written(row: Row, fields: Seq<Binding>) -> Row {
    Map::new(
        |column: Column| row.dom().contains(column) || assigned(fields, column) is Some,
        |column: Column|
            match assigned(fields, column) {
                Some(datum) => datum,
                None => row[column],
            },
    )
}

/// Whether the row holds everything that the fields write.
pub open spec fn carries(row: Row, fields: Seq<Binding>) -> bool {
    forall|column: Column| #[trigger]
        assigned(fields, column) matches Some(datum) ==> holds(row, Binding { column, datum })
}

/// The test-and-write that an update applies to each row.
pub open spec fn rewrite(filters: Seq<Binding>, fields: Seq<Binding>) -> spec_fn(Row) -> Row {
    |row: Row|
        if satisfies(row, filters) {
            written(row, fields)
        } else {
            row
        }
}

/// The write that an update applies to each row it selected.
pub open spec fn write(fields: Seq<Binding>) -> spec_fn(Row) -> Row {
    |row: Row| written(row, fields)
}

/// Whether `answer` is what the store gives for `query` in state `before`.
///
/// A selection returns the rows of the table that pass every filter and
/// changes nothing. An insertion adds one row at the end of the table; the
/// row holds what the request wrote, the store chooses the rest, and the row
/// is returned. An update writes the fields to every row that passes the
/// filters and returns those rows as written. A deletion removes the rows
/// that pass the filters and returns them.
pub open spec fn answers(before: Store, query: Query, answer: Answer) -> bool {
    let rows = before.rows(query.table);
    match query.verb {
        Verb::Select => {
            &&& answer.rows == rows.filter(matching(query.filters))
            &&& answer.after == before
        },
        Verb::Insert => {
            &&& answer.rows.len() == 1
            &&& carries(answer.rows[0], query.fields)
            &&& answer.after == before.with_rows(query.table, rows.push(answer.rows[0]))
        },
        Verb::Update => {
            &&& answer.rows == rows.filter(matching(query.filters)).map_values(write(query.fields))
            &&& answer.after == before.with_rows(
                query.table,
                rows.map_values(rewrite(query.filters, query.fields)),
            )
        },
        Verb::Delete => {
            &&& answer.rows == rows.filter(matching(query.filters))
            &&& answer.after == before.with_rows(query.table, rows.filter(missing(query.filters)))
        },
    }
}

/// Whether the row belongs to the tenant.
pub open spec fn owned(row: Row, tenant: Seq<char>) -> bool {
    holds(row, Binding { column: Column::UserId, datum: Datum::Text(tenant) })
}

/// Whether every row of the sequence belongs to the tenant.
pub open spec fn all_owned(rows: Seq<Row>, tenant: Seq<char>) -> bool {
    forall|i: int| 0 <= i < rows.len() ==> owned(#[trigger] rows[i], tenant)
}

/// Whether every row of `rows` that does not belong to the tenant is among
/// `others`.
pub open spec fn foreign_rows_within(rows: Seq<Row>, tenant: Seq<char>, others: Seq<Row>) -> bool {
    forall|i: int|
        0 <= i < rows.len() && !owned(#[trigger] rows[i], tenant) ==> others.contains(rows[i])
}

/// Whether no row of the sequence passes the filters.
pub open spec fn none_match(rows: Seq<Row>, filters: Seq<Binding>) -> bool {
    forall|i: int| 0 <= i < rows.len() ==> !satisfies(#[trigger] rows[i], filters)
}

/// A field that is the only one for its column decides what is written there.
pub(crate) proof fn lemma_assigned_once(fields: Seq<Binding>, i: int)
    requires
        0 <= i < fields.len(),
        forall|j: int| 0 <= j < fields.len() && j != i ==> fields[j].column != fields[i].column,
    ensures
        assigned(fields, fields[i].column) == Some(fields[i].datum),
    decreases fields.len(),
{
    if i < fields.len() - 1 {
        lemma_assigned_once(fields.drop_last(), i);
    }
}

/// A column for which there is no field is not written.
pub(crate) proof fn lemma_assigned_never(fields: Seq<Binding>, column: Column)
    requires
        forall|j: int| 0 <= j < fields.len() ==> fields[j].column != column,
    ensures
        assigned(fields, column) is None,
    decreases fields.len(),
{
    if fields.len() > 0 {
        lemma_assigned_never(fields.drop_last(), column);
    }
}

/// Where no row passes the filters, none is selected.
pub(crate) proof fn lemma_nothing_selected(rows: Seq<Row>, filters: Seq<Binding>)
    requires
        none_match(rows, filters),
    ensures
        rows.filter(matching(filters)).len() == 0,
        rows.filter(missing(filters)) == rows,
    decreases rows.len(),
{
    reveal(Seq::filter);
    if rows.len() > 0 {
        lemma_nothing_selected(rows.drop_last(), filters);
        assert(!satisfies(rows.last(), filters));
        assert(rows.drop_last().push(rows.last()) =~= rows);
    }
}

} // verus!
