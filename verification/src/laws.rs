//! What the client's requests achieve against a store that answers as the
//! model says.
//!
//! Each statement is a proof function. Its parameters are the tenant, the
//! inputs of the operation and the states of the store; its precondition
//! says which answers the store gave.

use crate::db::{
    add_wallet_query, at_address, confirmed, create_settings_query, delete_settings_query,
    delete_wallet_query, list_query, owned_by, set_active_query, settings_deleted,
    settings_fields, stored_settings, stored_wallet, update_settings_query, update_wallet_query,
    wallet_deleted,
};
use crate::error::{ErrorKind, Failure};
use crate::models::{CopyTradeSettings, TrackedWallet, Transaction};
use crate::reply::{classified, delivers, successful, Fetched, Reply};
use crate::request::{Binding, Column, Datum, Query, Table, Verb};
use crate::text::decimal;
use crate::store::{
    all_owned, answers, assigned, carries, foreign_rows_within, holds, lemma_assigned_never,
    lemma_assigned_once, lemma_nothing_selected, matching, missing, none_match, owned, rewrite,
    satisfies, written, Answer, Row, Store,
};
use crate::wire::parsed_rows;
use vstd::prelude::*;

verus! {

/// An entity that names the tenant it belongs to.
pub trait Owned {
    /// The tenant that the entity names.
    spec fn owner(&self) -> Seq<char>;
}

impl Owned for TrackedWallet {
    open spec fn owner(&self) -> Seq<char> {
        self.user_id@
    }
}

impl Owned for CopyTradeSettings {
    open spec fn owner(&self) -> Seq<char> {
        self.user_id@
    }
}

impl Owned for Transaction {
    open spec fn owner(&self) -> Seq<char> {
        self.user_id@
    }
}

/// Whether writing the fields to a row that passes the filters leaves it
/// passing them: no field writes to a filtered column anything but what the
/// filter asks for.
pub open spec fn settled(filters: Seq<Binding>, fields: Seq<Binding>) -> bool {
    forall|i: int|
        0 <= i < filters.len() ==> match assigned(fields, (#[trigger] filters[i]).column) {
            Some(datum) => datum == filters[i].datum,
            None => true,
        }
}

/// Of two wallets that agree on address and active flag, the same creation
/// is requested, whatever tenant, identity or timestamps either names.
pub proof fn creation_ignores_the_tenant_of_the_input(
    tenant: Seq<char>,
    one: TrackedWallet,
    other: TrackedWallet,
)
    requires
        one.wallet_address@ == other.wallet_address@,
        one.is_active == other.is_active,
    ensures
        add_wallet_query(tenant, one) == add_wallet_query(tenant, other),
{
}

/// The row that the store creates for a tracked wallet belongs to the
/// tenant that asked, and holds the address and the active flag of the
/// input.
pub proof fn created_wallet_belongs_to_the_tenant(
    tenant: Seq<char>,
    wallet: TrackedWallet,
    before: Store,
    answer: Answer,
)
    requires
        answers(before, add_wallet_query(tenant, wallet), answer),
    ensures
        holds(answer.rows[0], owned_by(tenant)),
        holds(answer.rows[0], at_address(wallet.wallet_address@)),
        holds(
            answer.rows[0],
            Binding { column: Column::IsActive, datum: Datum::Flag(wallet.is_active) },
        ),
        answer.after.rows(Table::TrackedWallets) == before.rows(Table::TrackedWallets).push(
            answer.rows[0],
        ),
{
    let fields = add_wallet_query(tenant, wallet).fields;
    lemma_assigned_once(fields, 0);
    lemma_assigned_once(fields, 1);
    lemma_assigned_once(fields, 2);
}

/// The row that the store creates for copy-trade settings belongs to the
/// tenant that asked, and to the tracked wallet that the input names.
pub proof fn created_settings_belong_to_the_tenant(
    tenant: Seq<char>,
    settings: CopyTradeSettings,
    before: Store,
    answer: Answer,
)
    requires
        answers(before, create_settings_query(tenant, settings), answer),
    ensures
        holds(answer.rows[0], owned_by(tenant)),
        holds(
            answer.rows[0],
            Binding {
                column: Column::TrackedWalletId,
                datum: Datum::Ident(settings.tracked_wallet_id),
            },
        ),
        answer.after.rows(Table::CopyTradeSettings) == before.rows(Table::CopyTradeSettings).push(
            answer.rows[0],
        ),
{
    let fields = create_settings_query(tenant, settings).fields;
    assert(fields.len() == 11);
    lemma_assigned_once(fields, 0);
    lemma_assigned_once(fields, 1);
}

/// A listing returns only rows of the tenant that asked and changes
/// nothing; of an empty table it returns no row.
pub proof fn listed_rows_belong_to_the_tenant(
    tenant: Seq<char>,
    table: Table,
    before: Store,
    answer: Answer,
)
    requires
        answers(before, list_query(table, tenant), answer),
    ensures
        all_owned(answer.rows, tenant),
        answer.after == before,
        before.rows(table).len() == 0 ==> answer.rows.len() == 0,
{
    let filters = list_query(table, tenant).filters;
    let rows = before.rows(table);
    rows.lemma_filter_len(matching(filters));
    assert forall|i: int| 0 <= i < answer.rows.len() implies owned(
        #[trigger] answer.rows[i],
        tenant,
    ) by {
        rows.lemma_filter_pred(matching(filters), i);
        assert(holds(answer.rows[i], filters[0]));
    }
}

/// What a listing hands to its caller: where the entities name the owner
/// that their rows hold, every entity names the tenant that asked. The
/// listing of an empty table is the empty list, not a failure. `fetched` is
/// a successful exchange that brought `listed`, one entity for each row of
/// the store's answer.
pub proof fn listed_entities_belong_to_the_tenant<T: Owned>(
    tenant: Seq<char>,
    table: Table,
    before: Store,
    answer: Answer,
    fetched: Fetched<T>,
    listed: Vec<T>,
    preface: Seq<char>,
)
    requires
        answers(before, list_query(table, tenant), answer),
        delivers(fetched, listed),
        listed@.len() == answer.rows.len(),
        forall|i: int|
            0 <= i < listed@.len() ==> holds(
                #[trigger] answer.rows[i],
                owned_by(listed@[i].owner()),
            ),
    ensures
        classified(fetched, preface) == Ok::<Vec<T>, Failure>(listed),
        forall|i: int| 0 <= i < listed@.len() ==> (#[trigger] listed@[i]).owner() == tenant,
        before.rows(table).len() == 0 ==> listed@.len() == 0,
{
    listed_rows_belong_to_the_tenant(tenant, table, before, answer);
    assert forall|i: int| 0 <= i < listed@.len() implies (#[trigger] listed@[i]).owner()
        == tenant by {
        assert(owned(answer.rows[i], tenant));
        assert(holds(answer.rows[i], owned_by(listed@[i].owner())));
    }
}

/// An update or a deletion that no row matches returns no row and leaves
/// the table as it was.
pub proof fn unmatched_write_returns_nothing(before: Store, query: Query, answer: Answer)
    requires
        query.verb == Verb::Update || query.verb == Verb::Delete,
        none_match(before.rows(query.table), query.filters),
        answers(before, query, answer),
    ensures
        answer.rows.len() == 0,
        answer.after.rows(query.table) == before.rows(query.table),
{
    let rows = before.rows(query.table);
    lemma_nothing_selected(rows, query.filters);
    if query.verb == Verb::Update {
        let changed = rows.map_values(rewrite(query.filters, query.fields));
        assert(changed =~= rows);
    }
}

/// Archiving or unarchiving a wallet that the tenant does not have is a
/// failure of data integrity. `fetched` is a successful exchange that
/// brought `rows`, the entities decoded from the store's answer, one for
/// each row of it.
pub proof fn flagging_without_match_fails(
    tenant: Seq<char>,
    address: Seq<char>,
    active: bool,
    before: Store,
    answer: Answer,
    fetched: Fetched<TrackedWallet>,
    rows: Vec<TrackedWallet>,
    words: Seq<char>,
)
    requires
        none_match(
            before.rows(Table::TrackedWallets),
            set_active_query(tenant, address, active).filters,
        ),
        answers(before, set_active_query(tenant, address, active), answer),
        delivers(fetched, rows),
        rows@.len() == answer.rows.len(),
    ensures
        confirmed(fetched, words) matches Err(failure) && failure.kind
            == ErrorKind::DataIntegrity,
        answer.after.rows(Table::TrackedWallets) == before.rows(Table::TrackedWallets),
{
    unmatched_write_returns_nothing(before, set_active_query(tenant, address, active), answer);
}

/// Updating a wallet that the tenant does not have is a failure of data
/// integrity. `fetched` is a successful exchange that brought `rows`, the
/// entities decoded from the store's answer, one for each row of it.
pub proof fn updating_a_wallet_without_match_fails(
    tenant: Seq<char>,
    id: u128,
    wallet: TrackedWallet,
    before: Store,
    answer: Answer,
    fetched: Fetched<TrackedWallet>,
    rows: Vec<TrackedWallet>,
    absent: Seq<char>,
    unnamed: Seq<char>,
)
    requires
        none_match(
            before.rows(Table::TrackedWallets),
            update_wallet_query(tenant, id, wallet).filters,
        ),
        answers(before, update_wallet_query(tenant, id, wallet), answer),
        delivers(fetched, rows),
        rows@.len() == answer.rows.len(),
    ensures
        stored_wallet(fetched, absent, unnamed) matches Err(failure) && failure.kind
            == ErrorKind::DataIntegrity,
        answer.after.rows(Table::TrackedWallets) == before.rows(Table::TrackedWallets),
{
    unmatched_write_returns_nothing(before, update_wallet_query(tenant, id, wallet), answer);
}

/// Updating copy-trade settings that the tenant does not have is a failure
/// of data integrity. `fetched` is a successful exchange that brought
/// `rows`, the entities decoded from the store's answer, one for each row of
/// it.
pub proof fn updating_settings_without_match_fails(
    tenant: Seq<char>,
    settings: CopyTradeSettings,
    before: Store,
    answer: Answer,
    fetched: Fetched<CopyTradeSettings>,
    rows: Vec<CopyTradeSettings>,
    complaint: Seq<char>,
)
    requires
        none_match(
            before.rows(Table::CopyTradeSettings),
            update_settings_query(tenant, settings).filters,
        ),
        answers(before, update_settings_query(tenant, settings), answer),
        delivers(fetched, rows),
        rows@.len() == answer.rows.len(),
    ensures
        stored_settings(fetched, complaint) matches Err(failure) && failure.kind
            == ErrorKind::DataIntegrity,
        answer.after.rows(Table::CopyTradeSettings) == before.rows(Table::CopyTradeSettings),
{
    unmatched_write_returns_nothing(before, update_settings_query(tenant, settings), answer);
}

/// Deleting a wallet that the tenant does not have is a failure of data
/// integrity, whatever successful status the store answers with. `reply` is
/// a response whose body holds as many rows as the store returned.
pub proof fn deleting_a_wallet_without_match_fails(
    tenant: Seq<char>,
    address: Seq<char>,
    before: Store,
    answer: Answer,
    reply: Reply,
)
    requires
        none_match(
            before.rows(Table::TrackedWallets),
            delete_wallet_query(tenant, address).filters,
        ),
        answers(before, delete_wallet_query(tenant, address), answer),
        reply matches Reply::Received { status, body } && successful(status@) && parsed_rows(body@)
            == Ok::<nat, Seq<char>>(answer.rows.len()),
    ensures
        wallet_deleted(reply) matches Err(failure) && failure.kind == ErrorKind::DataIntegrity,
        answer.after.rows(Table::TrackedWallets) == before.rows(Table::TrackedWallets),
{
    unmatched_write_returns_nothing(before, delete_wallet_query(tenant, address), answer);
}

/// Deleting copy-trade settings that the tenant does not have is a failure
/// of data integrity, whatever successful status the store answers with.
/// `reply` is a response whose body holds as many rows as the store
/// returned.
pub proof fn deleting_settings_without_match_fails(
    tenant: Seq<char>,
    tracked_wallet_id: u128,
    before: Store,
    answer: Answer,
    reply: Reply,
)
    requires
        none_match(
            before.rows(Table::CopyTradeSettings),
            delete_settings_query(tenant, tracked_wallet_id).filters,
        ),
        answers(before, delete_settings_query(tenant, tracked_wallet_id), answer),
        reply matches Reply::Received { status, body } && successful(status@) && parsed_rows(body@)
            == Ok::<nat, Seq<char>>(answer.rows.len()),
    ensures
        settings_deleted(reply) matches Err(failure) && failure.kind == ErrorKind::DataIntegrity,
        answer.after.rows(Table::CopyTradeSettings) == before.rows(Table::CopyTradeSettings),
{
    unmatched_write_returns_nothing(
        before,
        delete_settings_query(tenant, tracked_wallet_id),
        answer,
    );
}

/// A deletion that matched rows is confirmed with their number, for wallets
/// and for settings alike. `reply` is a response with a successful status
/// whose body holds as many rows as the store returned.
pub proof fn matched_deletion_is_confirmed_with_the_count(
    query: Query,
    before: Store,
    answer: Answer,
    reply: Reply,
)
    requires
        query.verb == Verb::Delete,
        !none_match(before.rows(query.table), query.filters),
        answers(before, query, answer),
        reply matches Reply::Received { status, body } && successful(status@) && parsed_rows(body@)
            == Ok::<nat, Seq<char>>(answer.rows.len()),
    ensures
        answer.rows.len() > 0,
        wallet_deleted(reply) == Ok::<Seq<char>, Failure>(
            decimal(answer.rows.len()) + " tracked wallet(s) deleted successfully"@,
        ),
        settings_deleted(reply) == Ok::<Seq<char>, Failure>(
            decimal(answer.rows.len()) + " copy trade settings deleted successfully"@,
        ),
{
    let rows = before.rows(query.table);
    let at = choose|at: int| 0 <= at < rows.len() && satisfies(#[trigger] rows[at], query.filters);
    rows.lemma_filter_contains(matching(query.filters), at);
}

/// A wallet that was created is among the wallets listed next: the listing
/// holds the very row that the creation returned, which agrees with the
/// input in all but what the store assigns.
pub proof fn created_wallet_is_listed(
    tenant: Seq<char>,
    wallet: TrackedWallet,
    before: Store,
    created: Answer,
    listed: Answer,
)
    requires
        answers(before, add_wallet_query(tenant, wallet), created),
        answers(created.after, list_query(Table::TrackedWallets, tenant), listed),
    ensures
        listed.rows.contains(created.rows[0]),
        holds(created.rows[0], owned_by(tenant)),
        holds(created.rows[0], at_address(wallet.wallet_address@)),
        holds(
            created.rows[0],
            Binding { column: Column::IsActive, datum: Datum::Flag(wallet.is_active) },
        ),
{
    created_wallet_belongs_to_the_tenant(tenant, wallet, before, created);
    lemma_last_is_listed(tenant, Table::TrackedWallets, created.after, created.rows[0], listed);
}

/// Whether the wallet is what the row holds, in the columns that a caller
/// supplies: owner, address and active flag.
pub open spec fn depicts(row: Row, wallet: TrackedWallet) -> bool {
    &&& holds(row, owned_by(wallet.user_id@))
    &&& holds(row, at_address(wallet.wallet_address@))
    &&& holds(row, Binding { column: Column::IsActive, datum: Datum::Flag(wallet.is_active) })
}

/// Create followed by list: among the wallets that the listing hands to its
/// caller is one that has the address and the active flag of the created
/// wallet and belongs to the tenant. `fetched` is a successful exchange that
/// brought `entities`, the wallets decoded from the listing, one for each row
/// of it.
pub proof fn created_wallet_is_among_the_listed_wallets(
    tenant: Seq<char>,
    wallet: TrackedWallet,
    before: Store,
    created: Answer,
    listed: Answer,
    fetched: Fetched<TrackedWallet>,
    entities: Vec<TrackedWallet>,
)
    requires
        answers(before, add_wallet_query(tenant, wallet), created),
        answers(created.after, list_query(Table::TrackedWallets, tenant), listed),
        delivers(fetched, entities),
        entities@.len() == listed.rows.len(),
        forall|i: int|
            0 <= i < entities@.len() ==> depicts(listed.rows[i], #[trigger] entities@[i]),
    ensures
        classified(fetched, "Failed to parse wallets: "@) == Ok::<
            Vec<TrackedWallet>,
            Failure,
        >(entities),
        exists|i: int|
            0 <= i < entities@.len() && (#[trigger] entities@[i]).user_id@ == tenant
                && entities@[i].wallet_address@ == wallet.wallet_address@ && entities@[i].is_active
                == wallet.is_active,
{
    created_wallet_is_listed(tenant, wallet, before, created, listed);
    let at = choose|at: int| 0 <= at < listed.rows.len() && listed.rows[at] == created.rows[0];
    assert(depicts(listed.rows[at], entities@[at]));
    assert(entities@[at].user_id@ == tenant);
}

/// Copy-trade settings that were created are among the settings listed
/// next: the listing holds the very row that the creation returned.
pub proof fn created_settings_are_listed(
    tenant: Seq<char>,
    settings: CopyTradeSettings,
    before: Store,
    created: Answer,
    listed: Answer,
)
    requires
        answers(before, create_settings_query(tenant, settings), created),
        answers(created.after, list_query(Table::CopyTradeSettings, tenant), listed),
    ensures
        listed.rows.contains(created.rows[0]),
        holds(created.rows[0], owned_by(tenant)),
        carries(created.rows[0], create_settings_query(tenant, settings).fields),
{
    created_settings_belong_to_the_tenant(tenant, settings, before, created);
    lemma_last_is_listed(tenant, Table::CopyTradeSettings, created.after, created.rows[0], listed);
}

/// Whether the settings are what the row holds, in the columns that a
/// caller supplies: owner, wallet reference and the nine settable columns.
pub open spec fn depicts_settings(row: Row, settings: CopyTradeSettings) -> bool {
    &&& holds(row, owned_by(settings.user_id@))
    &&& holds(
        row,
        Binding {
            column: Column::TrackedWalletId,
            datum: Datum::Ident(settings.tracked_wallet_id),
        },
    )
    &&& forall|i: int|
        0 <= i < settings_fields(settings).len() ==> holds(
            row,
            #[trigger] settings_fields(settings)[i],
        )
}

/// Whether two settings agree in what a caller supplies apart from the
/// tenant: the wallet reference and the nine settable columns, the
/// allow-list taken by its texts.
pub open spec fn same_settings(one: CopyTradeSettings, other: CopyTradeSettings) -> bool {
    &&& one.tracked_wallet_id == other.tracked_wallet_id
    &&& settings_fields(one) == settings_fields(other)
}

/// Create followed by list: among the settings that the listing hands to
/// its caller is one that belongs to the tenant and agrees with the created
/// settings in the wallet reference and in every settable column. `fetched`
/// is a successful exchange that brought `entities`, the settings decoded
/// from the listing, one for each row of it.
pub proof fn created_settings_are_among_the_listed_settings(
    tenant: Seq<char>,
    settings: CopyTradeSettings,
    before: Store,
    created: Answer,
    listed: Answer,
    fetched: Fetched<CopyTradeSettings>,
    entities: Vec<CopyTradeSettings>,
)
    requires
        answers(before, create_settings_query(tenant, settings), created),
        answers(created.after, list_query(Table::CopyTradeSettings, tenant), listed),
        delivers(fetched, entities),
        entities@.len() == listed.rows.len(),
        forall|i: int|
            0 <= i < entities@.len() ==> depicts_settings(listed.rows[i], #[trigger] entities@[i]),
    ensures
        classified(fetched, Seq::empty()) == Ok::<Vec<CopyTradeSettings>, Failure>(entities),
        exists|i: int|
            0 <= i < entities@.len() && (#[trigger] entities@[i]).user_id@ == tenant
                && same_settings(entities@[i], settings),
{
    created_settings_are_listed(tenant, settings, before, created, listed);
    let row = created.rows[0];
    let at = choose|at: int| 0 <= at < listed.rows.len() && listed.rows[at] == row;
    let found = entities@[at];
    assert(depicts_settings(row, found));
    let fields = create_settings_query(tenant, settings).fields;
    let given = settings_fields(settings);
    let read = settings_fields(found);
    assert(fields.len() == 11);
    assert forall|i: int| 0 <= i < 9 implies read[i] == given[i] by {
        lemma_assigned_once(fields, i + 2);
        assert(fields[i + 2] == given[i]);
        assert(holds(row, given[i]));
        assert(holds(row, read[i]));
        assert(read[i].column == given[i].column);
    }
    assert(read =~= given);
    lemma_assigned_once(fields, 1);
}

/// A row of the tenant that stands last in a table is listed.
proof fn lemma_last_is_listed(
    tenant: Seq<char>,
    table: Table,
    store: Store,
    row: Row,
    listed: Answer,
)
    requires
        store.rows(table).len() > 0,
        store.rows(table).last() == row,
        holds(row, owned_by(tenant)),
        answers(store, list_query(table, tenant), listed),
    ensures
        listed.rows.contains(row),
{
    let filters = list_query(table, tenant).filters;
    let rows = store.rows(table);
    assert(satisfies(row, filters));
    rows.lemma_filter_contains(matching(filters), rows.len() - 1);
}

/// An update whose fields agree with its filters reaches a state that the
/// same update leaves as it is.
pub proof fn settled_update_is_idempotent(
    before: Store,
    query: Query,
    first: Answer,
    second: Answer,
)
    requires
        query.verb == Verb::Update,
        settled(query.filters, query.fields),
        answers(before, query, first),
        answers(first.after, query, second),
    ensures
        second.after == first.after,
{
    let step = rewrite(query.filters, query.fields);
    let rows = before.rows(query.table);
    let once = rows.map_values(step);
    let twice = once.map_values(step);
    assert(first.after.rows(query.table) == once);
    assert forall|i: int| 0 <= i < rows.len() implies twice[i] == once[i] by {
        let row = rows[i];
        if satisfies(row, query.filters) {
            let next = written(row, query.fields);
            assert forall|j: int| 0 <= j < query.filters.len() implies holds(
                next,
                #[trigger] query.filters[j],
            ) by {
                assert(holds(row, query.filters[j]));
            }
            assert(written(next, query.fields) =~= next);
        }
    }
    assert(twice =~= once);
}

/// Archiving or unarchiving the same wallet twice leaves the store as the
/// first time left it.
pub proof fn flagging_is_idempotent(
    tenant: Seq<char>,
    address: Seq<char>,
    active: bool,
    before: Store,
    first: Answer,
    second: Answer,
)
    requires
        answers(before, set_active_query(tenant, address, active), first),
        answers(first.after, set_active_query(tenant, address, active), second),
    ensures
        second.after == first.after,
{
    let query = set_active_query(tenant, address, active);
    assert forall|i: int| 0 <= i < query.filters.len() implies match assigned(
        query.fields,
        (#[trigger] query.filters[i]).column,
    ) {
        Some(datum) => datum == query.filters[i].datum,
        None => true,
    } by {
        lemma_assigned_never(query.fields, query.filters[i].column);
    }
    settled_update_is_idempotent(before, query, first, second);
}

/// Updating a wallet twice with the same input leaves the store as the
/// first update left it.
pub proof fn updating_a_wallet_is_idempotent(
    tenant: Seq<char>,
    id: u128,
    wallet: TrackedWallet,
    before: Store,
    first: Answer,
    second: Answer,
)
    requires
        answers(before, update_wallet_query(tenant, id, wallet), first),
        answers(first.after, update_wallet_query(tenant, id, wallet), second),
    ensures
        second.after == first.after,
{
    let query = update_wallet_query(tenant, id, wallet);
    lemma_assigned_once(query.fields, 0);
    lemma_assigned_once(query.fields, 1);
    assert(query.filters[0].column == query.fields[1].column);
    assert(query.filters[1].column == query.fields[0].column);
    settled_update_is_idempotent(before, query, first, second);
}

/// Updating copy-trade settings twice with the same input leaves the store
/// as the first update left it.
pub proof fn updating_settings_is_idempotent(
    tenant: Seq<char>,
    settings: CopyTradeSettings,
    before: Store,
    first: Answer,
    second: Answer,
)
    requires
        answers(before, update_settings_query(tenant, settings), first),
        answers(first.after, update_settings_query(tenant, settings), second),
    ensures
        second.after == first.after,
{
    let query = update_settings_query(tenant, settings);
    assert(query.fields.len() == 10);
    lemma_assigned_once(query.fields, 0);
    lemma_assigned_never(query.fields, Column::TrackedWalletId);
    assert(query.filters[0].column == query.fields[0].column);
    settled_update_is_idempotent(before, query, first, second);
}

/// Whether a request keeps to the rows of one tenant: what it selects it
/// selects among that tenant's rows, and what it writes it writes under that
/// tenant.
pub open spec fn confined(query: Query, tenant: Seq<char>) -> bool {
    match query.verb {
        Verb::Insert => assigned(query.fields, Column::UserId) == Some(Datum::Text(tenant)),
        Verb::Select | Verb::Delete => query.filters.contains(owned_by(tenant)),
        Verb::Update => {
            &&& query.filters.contains(owned_by(tenant))
            &&& assigned(query.fields, Column::UserId) matches Some(datum) ==> datum == Datum::Text(
                tenant,
            )
        },
    }
}

/// Every request that a client makes keeps to the rows of its tenant,
/// whatever the input names as tenant.
pub proof fn requests_are_confined(
    tenant: Seq<char>,
    table: Table,
    wallet: TrackedWallet,
    settings: CopyTradeSettings,
    address: Seq<char>,
    active: bool,
    id: u128,
)
    ensures
        confined(list_query(table, tenant), tenant),
        confined(add_wallet_query(tenant, wallet), tenant),
        confined(set_active_query(tenant, address, active), tenant),
        confined(update_wallet_query(tenant, id, wallet), tenant),
        confined(delete_wallet_query(tenant, address), tenant),
        confined(create_settings_query(tenant, settings), tenant),
        confined(update_settings_query(tenant, settings), tenant),
        confined(delete_settings_query(tenant, id), tenant),
{
    let own = owned_by(tenant);
    assert(list_query(table, tenant).filters[0] == own);
    assert(set_active_query(tenant, address, active).filters[0] == own);
    assert(update_wallet_query(tenant, id, wallet).filters[0] == own);
    assert(delete_wallet_query(tenant, address).filters[0] == own);
    assert(update_settings_query(tenant, settings).filters[0] == own);
    assert(delete_settings_query(tenant, id).filters[0] == own);
    lemma_assigned_once(add_wallet_query(tenant, wallet).fields, 0);
    lemma_assigned_never(set_active_query(tenant, address, active).fields, Column::UserId);
    lemma_assigned_once(update_wallet_query(tenant, id, wallet).fields, 1);
    let created = create_settings_query(tenant, settings).fields;
    assert(created.len() == 11);
    lemma_assigned_once(created, 0);
    let updated = update_settings_query(tenant, settings).fields;
    assert(updated.len() == 10);
    lemma_assigned_once(updated, 0);
}

/// A request that keeps to one tenant returns only rows of that tenant and
/// leaves the rows of every other tenant as they are: none is changed, none
/// is removed, none is added, and no other table is touched.
pub proof fn confined_requests_spare_other_tenants(
    tenant: Seq<char>,
    query: Query,
    before: Store,
    answer: Answer,
)
    requires
        confined(query, tenant),
        answers(before, query, answer),
    ensures
        all_owned(answer.rows, tenant),
        foreign_rows_within(before.rows(query.table), tenant, answer.after.rows(query.table)),
        foreign_rows_within(answer.after.rows(query.table), tenant, before.rows(query.table)),
        forall|table: Table|
            table != query.table ==> answer.after.rows(table) == before.rows(table),
{
    let rows = before.rows(query.table);
    let next = answer.after.rows(query.table);
    let chosen = rows.filter(matching(query.filters));
    if query.verb != Verb::Insert {
        let at = choose|at: int|
            0 <= at < query.filters.len() && query.filters[at] == owned_by(tenant);
        assert forall|row: Row| satisfies(row, query.filters) implies owned(row, tenant) by {
            assert(holds(row, query.filters[at]));
        }
        assert forall|i: int| 0 <= i < chosen.len() implies owned(#[trigger] chosen[i], tenant) by {
            rows.lemma_filter_pred(matching(query.filters), i);
        }
    }
    match query.verb {
        Verb::Select => {
            assert forall|i: int| 0 <= i < rows.len() implies rows.contains(
                #[trigger] rows[i],
            ) by {}
        },
        Verb::Insert => {
            assert(next == rows.push(answer.rows[0]));
            assert forall|i: int| 0 <= i < rows.len() implies next.contains(#[trigger] rows[i]) by {
                assert(next[i] == rows[i]);
            }
            assert forall|i: int|
                0 <= i < next.len() && !owned(#[trigger] next[i], tenant) implies rows.contains(
                next[i],
            ) by {
                assert(rows[i] == next[i]);
            }
        },
        Verb::Update => {
            assert(next == rows.map_values(rewrite(query.filters, query.fields)));
            assert forall|i: int|
                0 <= i < rows.len() && !owned(#[trigger] rows[i], tenant) implies next.contains(
                rows[i],
            ) by {
                assert(next[i] == rows[i]);
            }
            assert forall|i: int|
                0 <= i < next.len() && !owned(#[trigger] next[i], tenant) implies rows.contains(
                next[i],
            ) by {
                assert(rows[i] == next[i]);
            }
        },
        Verb::Delete => {
            assert(next == rows.filter(missing(query.filters)));
            assert forall|i: int|
                0 <= i < rows.len() && !owned(#[trigger] rows[i], tenant) implies next.contains(
                rows[i],
            ) by {
                rows.lemma_filter_contains(missing(query.filters), i);
            }
            assert forall|i: int| 0 <= i < next.len() implies rows.contains(#[trigger] next[i]) by {
                assert(next.contains(next[i]));
                rows.lemma_filter_contains_rev(missing(query.filters), next[i]);
            }
        },
    }
}

/// No update that a client makes changes the identity of a row: after an
/// archiving, an unarchiving or an update of a wallet or of settings, every
/// row holds in its identity column what it held before.
pub proof fn updates_keep_identities(
    tenant: Seq<char>,
    wallet: TrackedWallet,
    settings: CopyTradeSettings,
    address: Seq<char>,
    active: bool,
    id: u128,
    query: Query,
    before: Store,
    answer: Answer,
)
    requires
        query == set_active_query(tenant, address, active) || query == update_wallet_query(
            tenant,
            id,
            wallet,
        ) || query == update_settings_query(tenant, settings),
        answers(before, query, answer),
    ensures
        answer.after.rows(query.table).len() == before.rows(query.table).len(),
        forall|i: int|
            0 <= i < before.rows(query.table).len() ==> {
                let old_row = #[trigger] before.rows(query.table)[i];
                let new_row = answer.after.rows(query.table)[i];
                &&& new_row.dom().contains(Column::Id) == old_row.dom().contains(Column::Id)
                &&& old_row.dom().contains(Column::Id) ==> new_row[Column::Id]
                    == old_row[Column::Id]
            },
{
    let rows = before.rows(query.table);
    let next = answer.after.rows(query.table);
    assert(next == rows.map_values(rewrite(query.filters, query.fields)));
    if query == update_wallet_query(tenant, id, wallet) {
        lemma_assigned_once(query.fields, 0);
        assert(query.filters[1] == Binding { column: Column::Id, datum: Datum::Ident(id) });
    } else if query == set_active_query(tenant, address, active) {
        lemma_assigned_never(query.fields, Column::Id);
    } else {
        assert(query.fields.len() == 10);
        lemma_assigned_never(query.fields, Column::Id);
    }
    assert forall|i: int| 0 <= i < rows.len() implies {
        let old_row = #[trigger] rows[i];
        let new_row = next[i];
        &&& new_row.dom().contains(Column::Id) == old_row.dom().contains(Column::Id)
        &&& old_row.dom().contains(Column::Id) ==> new_row[Column::Id] == old_row[Column::Id]
    } by {
        if satisfies(rows[i], query.filters) && query == update_wallet_query(tenant, id, wallet) {
            assert(holds(rows[i], query.filters[1]));
        }
    }
}

} // verus!
