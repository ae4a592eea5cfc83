//! Requests against the store's table-filter interface, as plain data.

use crate::models::{texts, Decimal};
use crate::wire::{hyphenated, ident_text};
use vstd::prelude::*;

verus! {

/// The tables this crate works on.
#[derive(Clone, Copy, Debug, PartialEq, Eq, Structural)]
pub enum Table {
    TrackedWallets,
    CopyTradeSettings,
    Transactions,
}

/// What a request does to the rows it selects.
#[derive(Clone, Copy, Debug, PartialEq, Eq, Structural)]
pub enum Verb {
    /// Read the matching rows, all columns.
    Select,
    /// Add one row.
    Insert,
    /// Overwrite columns of the matching rows.
    Update,
    /// Remove the matching rows.
    Delete,
}

/// The columns this crate filters on or writes.
#[derive(Clone, Copy, Debug, PartialEq, Eq, Structural)]
pub enum Column {
    Id,
    UserId,
    WalletAddress,
    IsActive,
    TrackedWalletId,
    IsEnabled,
    TradeAmountSol,
    MaxSlippage,
    MaxOpenPositions,
    AllowedTokens,
    UseAllowedTokensList,
    AllowAdditionalBuys,
    MatchSellPercentage,
    MinSolBalance,
}

/// The content of one cell of a row.
pub ghost enum Datum {
    Null,
    Flag(bool),
    Integer(i32),
    Decimal(Decimal),
    Ident(u128),
    Text(Seq<char>),
    TextList(Seq<Seq<char>>),
}

/// A column together with a cell content: a filter when it selects rows, an
/// assignment when it writes them.
pub ghost struct Binding {
    pub column: Column,
    pub datum: Datum,
}

/// The operand of an equality filter.
#[derive(Clone, Debug, PartialEq, Eq)]
pub enum Key {
    Text(String),
    Ident(u128),
}

/// Selects the rows whose `column` equals `key`.
#[derive(Clone, Debug, PartialEq, Eq)]
pub struct Filter {
    pub column: Column,
    pub key: Key,
}

/// A value written to a column.
#[derive(Clone, Debug, PartialEq, Eq)]
pub enum Cell {
    Null,
    Flag(bool),
    Integer(i32),
    Decimal(Decimal),
    Ident(u128),
    Text(String),
    TextList(Vec<String>),
}

/// Writes `value` to `column`.
#[derive(Clone, Debug, PartialEq, Eq)]
pub struct Field {
    pub column: Column,
    pub value: Cell,
}

/// One request: a verb on a table, narrowed by filters that must all hold,
/// with the fields to write.
#[derive(Clone, Debug, PartialEq, Eq)]
pub struct Request {
    pub table: Table,
    pub verb: Verb,
    pub filters: Vec<Filter>,
    pub fields: Vec<Field>,
}

/// The mathematical content of a [`Request`].
pub ghost struct Query {
    pub table: Table,
    pub verb: Verb,
    pub filters: Seq<Binding>,
    pub fields: Seq<Binding>,
}

impl View for Key {
    type V = Datum;

    open spec fn view(&self) -> Datum {
        match self {
            Key::Text(s) => Datum::Text(s@),
            Key::Ident(id) => Datum::Ident(*id),
        }
    }
}

impl View for Filter {
    type V = Binding;

    open spec fn view(&self) -> Binding {
        Binding { column: self.column, datum: self.key@ }
    }
}

impl View for Cell {
    type V = Datum;

    open spec fn view(&self) -> Datum {
        match self {
            Cell::Null => Datum::Null,
            Cell::Flag(b) => Datum::Flag(*b),
            Cell::Integer(n) => Datum::Integer(*n),
            Cell::Decimal(d) => Datum::Decimal(*d),
            Cell::Ident(id) => Datum::Ident(*id),
            Cell::Text(s) => Datum::Text(s@),
            Cell::TextList(list) => Datum::TextList(texts(list@)),
        }
    }
}

impl View for Field {
    type V = Binding;

    open spec fn view(&self) -> Binding {
        Binding { column: self.column, datum: self.value@ }
    }
}

/// The bindings that a list of filters stands for.
pub open spec fn filter_views(filters: Seq<Filter>) -> Seq<Binding> {
    filters.map_values(|f: Filter| f@)
}

/// The bindings that a list of fields stands for.
pub open spec fn field_views(fields: Seq<Field>) -> Seq<Binding> {
    fields.map_values(|f: Field| f@)
}

impl View for Request {
    type V = Query;

    open spec fn view(&self) -> Query {
        Query {
            table: self.table,
            verb: self.verb,
            filters: filter_views(self.filters@),
            fields: field_views(self.fields@),
        }
    }
}

/// The name of a table in the store.
pub open spec fn table_name(table: Table) -> Seq<char> {
    match table {
        Table::TrackedWallets => "tracked_wallets"@,
        Table::CopyTradeSettings => "copy_trade_settings"@,
        Table::Transactions => "transactions"@,
    }
}

/// The name of a column in the store.
pub open spec fn column_name(column: Column) -> Seq<char> {
    match column {
        Column::Id => "id"@,
        Column::UserId => "user_id"@,
        Column::WalletAddress => "wallet_address"@,
        Column::IsActive => "is_active"@,
        Column::TrackedWalletId => "tracked_wallet_id"@,
        Column::IsEnabled => "is_enabled"@,
        Column::TradeAmountSol => "trade_amount_sol"@,
        Column::MaxSlippage => "max_slippage"@,
        Column::MaxOpenPositions => "max_open_positions"@,
        Column::AllowedTokens => "allowed_tokens"@,
        Column::UseAllowedTokensList => "use_allowed_tokens_list"@,
        Column::AllowAdditionalBuys => "allow_additional_buys"@,
        Column::MatchSellPercentage => "match_sell_percentage"@,
        Column::MinSolBalance => "min_sol_balance"@,
    }
}

/// The text that an equality filter compares a column with.
pub open spec fn key_text(key: Datum) -> Seq<char>
    recommends
        key is Text || key is Ident,
{
    match key {
        Datum::Text(s) => s,
        Datum::Ident(id) => hyphenated(id),
        _ => Seq::empty(),
    }
}

impl Verb {
    /// The columns that a request with this verb asks for: all of them for a
    /// selection, written `*`; none otherwise.
    pub fn columns(&self) -> (columns: Option<&'static str>)
        ensures
            *self == Verb::Select ==> (columns matches Some(all) && all@ == "*"@),
            *self != Verb::Select ==> columns is None,
    {
        match self {
            Verb::Select => Some("*"),
            _ => None,
        }
    }
}

impl Table {
    /// The name under which the store knows this table.
    pub fn name(&self) -> (name: &'static str)
        ensures
            name@ == table_name(*self),
    {
        match self {
            Table::TrackedWallets => "tracked_wallets",
            Table::CopyTradeSettings => "copy_trade_settings",
            Table::Transactions => "transactions",
        }
    }
}

impl Column {
    /// The name under which the store knows this column.
    pub fn name(&self) -> (name: &'static str)
        ensures
            name@ == column_name(*self),
    {
        match self {
            Column::Id => "id",
            Column::UserId => "user_id",
            Column::WalletAddress => "wallet_address",
            Column::IsActive => "is_active",
            Column::TrackedWalletId => "tracked_wallet_id",
            Column::IsEnabled => "is_enabled",
            Column::TradeAmountSol => "trade_amount_sol",
            Column::MaxSlippage => "max_slippage",
            Column::MaxOpenPositions => "max_open_positions",
            Column::AllowedTokens => "allowed_tokens",
            Column::UseAllowedTokensList => "use_allowed_tokens_list",
            Column::AllowAdditionalBuys => "allow_additional_buys",
            Column::MatchSellPercentage => "match_sell_percentage",
            Column::MinSolBalance => "min_sol_balance",
        }
    }
}

impl Key {
    /// The operand as the store's filter syntax takes it: a text as it is,
    /// an identifier in its hyphenated form.
    pub fn text(&self) -> (text: String)
        ensures
            text@ == key_text(self@),
    {
        match self {
            Key::Text(s) => s.clone(),
            Key::Ident(id) => ident_text(*id),
        }
    }
}

impl Filter {
    /// The filter `column = text`.
    pub fn text(column: Column, text: String) -> (filter: Filter)
        ensures
            filter@ == (Binding { column, datum: Datum::Text(text@) }),
    {
        Filter { column, key: Key::Text(text) }
    }

    /// The filter `column = id`.
    pub fn ident(column: Column, id: u128) -> (filter: Filter)
        ensures
            filter@ == (Binding { column, datum: Datum::Ident(id) }),
    {
        Filter { column, key: Key::Ident(id) }
    }

    /// The filter as a column name and the text to compare it with.
    pub fn pair(&self) -> (pair: (&'static str, String))
        ensures
            pair.0@ == column_name(self.column),
            pair.1@ == key_text(self.key@),
    {
        (self.column.name(), self.key.text())
    }
}

impl Field {
    /// The assignment of `value` to `column`.
    pub fn new(column: Column, value: Cell) -> (field: Field)
        ensures
            field@ == (Binding { column, datum: value@ }),
    {
        Field { column, value }
    }
}

impl Request {
    /// A request with no filters and no fields yet.
    pub fn new(table: Table, verb: Verb) -> (request: Request)
        ensures
            request@ == (Query { table, verb, filters: Seq::empty(), fields: Seq::empty() }),
    {
        let request = Request { table, verb, filters: Vec::new(), fields: Vec::new() };
        assert(request@.filters =~= Seq::empty());
        assert(request@.fields =~= Seq::empty());
        request
    }

    /// Narrows the request by one more filter.
    pub fn filter(self, filter: Filter) -> (request: Request)
        ensures
            request@ == (Query { filters: self@.filters.push(filter@), ..self@ }),
    {
        let mut request = self;
        request.filters.push(filter);
        assert(request@.filters =~= self@.filters.push(filter@));
        request
    }

    /// Adds one more field to write.
    pub fn field(self, column: Column, value: Cell) -> (request: Request)
        ensures
            request@ == (Query {
                fields: self@.fields.push(Binding { column, datum: value@ }),
                ..self@
            }),
    {
        let mut request = self;
        request.fields.push(Field { column, value });
        assert(request@.fields =~= self@.fields.push(Binding { column, datum: value@ }));
        request
    }
}

} // verus!
