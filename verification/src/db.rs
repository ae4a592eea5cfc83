//! The resource client: one request and one reading of the answer per
//! operation.
//!
//! Every operation comes as a pair. The function whose name ends in
//! `_request` describes what to send; the function that bears the
//! operation's name reads what came back. Neither performs I/O.
//!
//! What came back is read in one order throughout. An exchange that brought
//! no response is a failure of transport. A status outside 200 to 299 is a
//! failure that the store reports: of its query layer where rows were asked
//! for, of data integrity where rows were to be deleted. Then the body is
//! decoded, and a write that returned no row is a failure of data integrity.

use crate::error::{AppError, ErrorKind, Failure};
use crate::models::{texts, CopyTradeSettings, TrackedWallet, Transaction};
use crate::reply::{
    classified, failed, first_of, first_row, outcome, successful, Fetched, Reply, Status,
};
use crate::request::{Binding, Cell, Column, Datum, Filter, Query, Request, Table, Verb};
use crate::text::{decimal, decimal_text};
use crate::wire::{parse_rows, parsed_rows, status_line};
use vstd::prelude::*;
use vstd::string::StringExecFns;

verus! {

/// The immutable configuration of a client, as mathematical values.
pub ghost struct Settings {
    /// Where the store is reached.
    pub endpoint: Seq<char>,
    /// The privileged credential sent with every request.
    pub credential: Seq<char>,
    /// The tenant on whose behalf every request is made.
    pub tenant: Seq<char>,
}

/// A client of the store, bound to one tenant for its whole life.
#[derive(Clone, Debug, PartialEq, Eq)]
pub struct SupabaseClient {
    url: String,
    service_role_key: String,
    user_id: String,
}

impl View for SupabaseClient {
    type V = Settings;

    closed spec fn view(&self) -> Settings {
        Settings {
            endpoint: self.url@,
            credential: self.service_role_key@,
            tenant: self.user_id@,
        }
    }
}

/// A header sent with every request.
#[derive(Clone, Debug, PartialEq, Eq)]
pub struct Header {
    pub name: String,
    pub value: String,
}

/// What becomes of the deployment's configuration: the first setting that
/// is missing, in the order endpoint, service credential, API credential,
/// tenant, is reported; with all four present the client is configured.
pub open spec fn configured(
    url: Option<String>,
    service_role_key: Option<String>,
    api_key: Option<String>,
    user_id: Option<String>,
) -> Result<Settings, Failure> {
    if url is None {
        failed(ErrorKind::Configuration, "SUPABASE_URL must be set"@)
    } else if service_role_key is None {
        failed(ErrorKind::Configuration, "SUPABASE_SERVICE_ROLE_KEY must be set"@)
    } else if api_key is None {
        failed(ErrorKind::Configuration, "SUPABASE_API_KEY must be set"@)
    } else if user_id is None {
        failed(ErrorKind::Configuration, "USER_ID must be set"@)
    } else {
        Ok(
            Settings {
                endpoint: url.unwrap()@,
                credential: service_role_key.unwrap()@,
                tenant: user_id.unwrap()@,
            },
        )
    }
}

/// A client or the refusal to make one, as mathematical values.
pub open spec fn set_up(result: Result<SupabaseClient, AppError>) -> Result<Settings, Failure> {
    match result {
        Ok(client) => Ok(client@),
        Err(error) => Err(error@),
    }
}

/// The filter that confines a request to the rows of one tenant.
pub open spec fn owned_by(tenant: Seq<char>) -> Binding {
    Binding { column: Column::UserId, datum: Datum::Text(tenant) }
}

/// The allow-list as the store holds it: absent, or the list of tokens.
pub open spec fn allow_list(tokens: Option<Vec<String>>) -> Datum {
    match tokens {
        None => Datum::Null,
        Some(list) => Datum::TextList(texts(list@)),
    }
}

/// The nine columns of copy-trade settings that a caller may set, in the
/// order in which they are written.
pub open spec fn settings_fields(settings: CopyTradeSettings) -> Seq<Binding> {
    seq![
        Binding { column: Column::IsEnabled, datum: Datum::Flag(settings.is_enabled) },
        Binding {
            column: Column::TradeAmountSol,
            datum: Datum::Decimal(settings.trade_amount_sol),
        },
        Binding { column: Column::MaxSlippage, datum: Datum::Decimal(settings.max_slippage) },
        Binding {
            column: Column::MaxOpenPositions,
            datum: Datum::Integer(settings.max_open_positions),
        },
        Binding { column: Column::AllowedTokens, datum: allow_list(settings.allowed_tokens) },
        Binding {
            column: Column::UseAllowedTokensList,
            datum: Datum::Flag(settings.use_allowed_tokens_list),
        },
        Binding {
            column: Column::AllowAdditionalBuys,
            datum: Datum::Flag(settings.allow_additional_buys),
        },
        Binding {
            column: Column::MatchSellPercentage,
            datum: Datum::Flag(settings.match_sell_percentage),
        },
        Binding { column: Column::MinSolBalance, datum: Datum::Decimal(settings.min_sol_balance) },
    ]
}

/// The request that creates copy-trade settings for `tenant`. The tenant of
/// the input plays no part in it.
pub open spec fn create_settings_query(tenant: Seq<char>, settings: CopyTradeSettings) -> Query {
    Query {
        table: Table::CopyTradeSettings,
        verb: Verb::Insert,
        filters: Seq::empty(),
        fields: seq![
            owned_by(tenant),
            Binding {
                column: Column::TrackedWalletId,
                datum: Datum::Ident(settings.tracked_wallet_id),
            },
        ] + settings_fields(settings),
    }
}

/// The request that updates the copy-trade settings of one tracked wallet of
/// `tenant`.
pub open spec fn update_settings_query(tenant: Seq<char>, settings: CopyTradeSettings) -> Query {
    Query {
        table: Table::CopyTradeSettings,
        verb: Verb::Update,
        filters: seq![
            owned_by(tenant),
            Binding {
                column: Column::TrackedWalletId,
                datum: Datum::Ident(settings.tracked_wallet_id),
            },
        ],
        fields: seq![owned_by(tenant)] + settings_fields(settings),
    }
}

/// The row that a write returned, which must exist and bear an identity;
/// `complaint` is what is said when it does not.
pub open spec fn stored_settings(
    fetched: Fetched<CopyTradeSettings>,
    complaint: Seq<char>,
) -> Result<CopyTradeSettings, Failure> {
    match classified(fetched, Seq::empty()) {
        Err(failure) => Err(failure),
        Ok(rows) => match first_of(rows@) {
            Some(row) if row.id is Some => Ok(row),
            _ => failed(ErrorKind::DataIntegrity, complaint),
        },
    }
}

/// The request that lists the rows of `table` that belong to `tenant`.
pub open spec fn list_query(table: Table, tenant: Seq<char>) -> Query {
    Query { table, verb: Verb::Select, filters: seq![owned_by(tenant)], fields: Seq::empty() }
}

/// The filter that selects a wallet by its address.
pub open spec fn at_address(address: Seq<char>) -> Binding {
    Binding { column: Column::WalletAddress, datum: Datum::Text(address) }
}

/// The request that creates a tracked wallet for `tenant`. The tenant, the
/// identity and the timestamps of the input play no part in it.
pub open spec fn add_wallet_query(tenant: Seq<char>, wallet: TrackedWallet) -> Query {
    Query {
        table: Table::TrackedWallets,
        verb: Verb::Insert,
        filters: Seq::empty(),
        fields: seq![
            owned_by(tenant),
            at_address(wallet.wallet_address@),
            Binding { column: Column::IsActive, datum: Datum::Flag(wallet.is_active) },
        ],
    }
}

/// The request that sets the active flag of the wallet of `tenant` at
/// `address`, and nothing else.
pub open spec fn set_active_query(tenant: Seq<char>, address: Seq<char>, active: bool) -> Query {
    Query {
        table: Table::TrackedWallets,
        verb: Verb::Update,
        filters: seq![owned_by(tenant), at_address(address)],
        fields: seq![Binding { column: Column::IsActive, datum: Datum::Flag(active) }],
    }
}

/// The request that deletes the wallet of `tenant` at `address`.
pub open spec fn delete_wallet_query(tenant: Seq<char>, address: Seq<char>) -> Query {
    Query {
        table: Table::TrackedWallets,
        verb: Verb::Delete,
        filters: seq![owned_by(tenant), at_address(address)],
        fields: Seq::empty(),
    }
}

/// The request that updates the wallet of `tenant` with identity `id`.
pub open spec fn update_wallet_query(tenant: Seq<char>, id: u128, wallet: TrackedWallet) -> Query {
    Query {
        table: Table::TrackedWallets,
        verb: Verb::Update,
        filters: seq![owned_by(tenant), Binding { column: Column::Id, datum: Datum::Ident(id) }],
        fields: seq![
            Binding { column: Column::Id, datum: Datum::Ident(id) },
            owned_by(tenant),
            at_address(wallet.wallet_address@),
            Binding { column: Column::IsActive, datum: Datum::Flag(wallet.is_active) },
        ],
    }
}

/// What an update of a tracked wallet asks of the store: nothing when the
/// wallet has no identity, which is a failure of validation.
pub open spec fn update_wallet_plan(tenant: Seq<char>, wallet: TrackedWallet) -> Result<
    Query,
    Failure,
> {
    match wallet.id {
        None => failed(ErrorKind::Validation, "Wallet ID is required for update"@),
        Some(id) => Ok(update_wallet_query(tenant, id, wallet)),
    }
}

/// The request that deletes the copy-trade settings of one tracked wallet
/// of `tenant`.
pub open spec fn delete_settings_query(tenant: Seq<char>, tracked_wallet_id: u128) -> Query {
    Query {
        table: Table::CopyTradeSettings,
        verb: Verb::Delete,
        filters: seq![
            owned_by(tenant),
            Binding { column: Column::TrackedWalletId, datum: Datum::Ident(tracked_wallet_id) },
        ],
        fields: Seq::empty(),
    }
}

/// The wallet that a write returned. `absent` is said when the store
/// returned no row, `unnamed` when the row bears no identity.
pub open spec fn stored_wallet(
    fetched: Fetched<TrackedWallet>,
    absent: Seq<char>,
    unnamed: Seq<char>,
) -> Result<TrackedWallet, Failure> {
    match classified(fetched, Seq::empty()) {
        Err(failure) => Err(failure),
        Ok(rows) => match first_of(rows@) {
            None => failed(ErrorKind::DataIntegrity, absent),
            Some(row) => if row.id is Some {
                Ok(row)
            } else {
                failed(ErrorKind::DataIntegrity, unnamed)
            },
        },
    }
}

/// The confirmation that the active flag was set: `words` followed by the
/// address of the first updated row. No updated row is a failure of data
/// integrity.
pub open spec fn confirmed(fetched: Fetched<TrackedWallet>, words: Seq<char>) -> Result<
    Seq<char>,
    Failure,
> {
    match classified(fetched, Seq::empty()) {
        Err(failure) => Err(failure),
        Ok(rows) => match first_of(rows@) {
            None => failed(ErrorKind::DataIntegrity, "No wallet was updated"@),
            Some(row) => Ok(words + row.wallet_address@),
        },
    }
}

/// A textual result with its text and its error as mathematical values.
pub open spec fn told(result: Result<String, AppError>) -> Result<Seq<char>, Failure> {
    match result {
        Ok(text) => Ok(text@),
        Err(error) => Err(error@),
    }
}

/// A request or the refusal to make one, as mathematical values.
pub open spec fn planned(result: Result<Request, AppError>) -> Result<Query, Failure> {
    match result {
        Ok(request) => Ok(request@),
        Err(error) => Err(error@),
    }
}

/// The failure that reports an unexpected status: `words`, then the status
/// written out.
pub open spec fn refused<T>(words: Seq<char>, status: u16) -> Result<T, Failure> {
    failed(ErrorKind::DataIntegrity, words + status_line(status))
}

/// What a deletion amounts to, given what the parser made of the body: the
/// count of deleted rows followed by `done`, or `nothing` as a failure of
/// data integrity when no row was deleted.
pub open spec fn deletion(
    parsed: Result<nat, Seq<char>>,
    nothing: Seq<char>,
    done: Seq<char>,
) -> Result<Seq<char>, Failure> {
    match parsed {
        Err(complaint) => failed(ErrorKind::ResponseDecodeFailure, complaint),
        Ok(count) => if count == 0 {
            failed(ErrorKind::DataIntegrity, nothing)
        } else {
            Ok(decimal(count) + done)
        },
    }
}

/// How far the reply to a deletion gets. An exchange that brought no
/// response is a failure of transport. The status is looked at before the
/// body: outside 200 to 299 it is a failure of data integrity that carries
/// the status after `refusal`. A body that could not be read is a failure of
/// transport. Otherwise the body is parsed.
pub open spec fn deletion_read(reply: Reply, refusal: Seq<char>) -> Result<
    Result<nat, Seq<char>>,
    Failure,
> {
    match reply {
        Reply::Failed(reason) => failed(ErrorKind::Transport, reason@),
        Reply::Unread { status, reason } => if successful(status@) {
            failed(ErrorKind::Transport, reason@)
        } else {
            refused(refusal, status@)
        },
        Reply::Received { status, body } => if successful(status@) {
            Ok(parsed_rows(body@))
        } else {
            refused(refusal, status@)
        },
    }
}

/// What the reply to a deletion amounts to.
pub open spec fn deleted(
    reply: Reply,
    refusal: Seq<char>,
    nothing: Seq<char>,
    done: Seq<char>,
) -> Result<Seq<char>, Failure> {
    match deletion_read(reply, refusal) {
        Err(failure) => Err(failure),
        Ok(parsed) => deletion(parsed, nothing, done),
    }
}

/// What a deletion of tracked wallets amounts to, given what the parser made
/// of the body.
pub open spec fn wallet_deletion(parsed: Result<nat, Seq<char>>) -> Result<Seq<char>, Failure> {
    deletion(parsed, "No wallet found to delete"@, " tracked wallet(s) deleted successfully"@)
}

/// What the reply to a deletion of tracked wallets amounts to.
pub open spec fn wallet_deleted(reply: Reply) -> Result<Seq<char>, Failure> {
    deleted(
        reply,
        "Failed to delete tracked wallet. Status: "@,
        "No wallet found to delete"@,
        " tracked wallet(s) deleted successfully"@,
    )
}

/// What a deletion of copy-trade settings amounts to, given what the parser
/// made of the body.
pub open spec fn settings_deletion(parsed: Result<nat, Seq<char>>) -> Result<Seq<char>, Failure> {
    deletion(
        parsed,
        "No copy trade settings found to delete"@,
        " copy trade settings deleted successfully"@,
    )
}

/// What the reply to a deletion of copy-trade settings amounts to.
pub open spec fn settings_deleted(reply: Reply) -> Result<Seq<char>, Failure> {
    deleted(
        reply,
        "Failed to delete copy trade settings. Status: "@,
        "No copy trade settings found to delete"@,
        " copy trade settings deleted successfully"@,
    )
}

/// The parser's verdict with the count as a natural number and the
/// complaint as a text.
pub open spec fn verdict(parsed: Result<usize, String>) -> Result<nat, Seq<char>> {
    match parsed {
        Ok(count) => Ok(count as nat),
        Err(complaint) => Err(complaint@),
    }
}

impl SupabaseClient {
    /// A client for the store at `url`, acting for the tenant `user_id` and
    /// presenting `service_role_key` with every request. The public API key
    /// is accepted and not used.
    pub fn new(url: &str, _api_key: &str, service_role_key: &str, user_id: &str) -> (client: Self)
        ensures
            client@ == (Settings {
                endpoint: url@,
                credential: service_role_key@,
                tenant: user_id@,
            }),
    {
        SupabaseClient {
            url: String::from_str(url),
            service_role_key: String::from_str(service_role_key),
            user_id: String::from_str(user_id),
        }
    }

    /// Makes a client from the deployment's settings, each of which may be
    /// missing.
    pub fn configure(
        url: Option<String>,
        service_role_key: Option<String>,
        api_key: Option<String>,
        user_id: Option<String>,
    ) -> (result: Result<SupabaseClient, AppError>)
        ensures
            set_up(result) == configured(url, service_role_key, api_key, user_id),
    {
        let url = match url {
            Some(url) => url,
            None => {
                return Err(AppError::ConfigError(String::from_str("SUPABASE_URL must be set")));
            },
        };
        let service_role_key = match service_role_key {
            Some(key) => key,
            None => {
                return Err(
                    AppError::ConfigError(
                        String::from_str("SUPABASE_SERVICE_ROLE_KEY must be set"),
                    ),
                );
            },
        };
        if api_key.is_none() {
            return Err(AppError::ConfigError(String::from_str("SUPABASE_API_KEY must be set")));
        }
        let user_id = match user_id {
            Some(user_id) => user_id,
            None => {
                return Err(AppError::ConfigError(String::from_str("USER_ID must be set")));
            },
        };
        Ok(SupabaseClient { url, service_role_key, user_id })
    }

    /// Where the store is reached.
    pub fn url(&self) -> (url: &String)
        ensures
            url@ == self@.endpoint,
    {
        &self.url
    }

    /// The tenant on whose behalf this client acts.
    pub fn user_id(&self) -> (user_id: &String)
        ensures
            user_id@ == self@.tenant,
    {
        &self.user_id
    }

    /// The two headers that carry the credential: `apikey` with the
    /// credential itself, and `Authorization` with the credential as a
    /// bearer token.
    pub fn headers(&self) -> (headers: Vec<Header>)
        ensures
            headers@.len() == 2,
            headers@[0].name@ == "apikey"@,
            headers@[0].value@ == self@.credential,
            headers@[1].name@ == "Authorization"@,
            headers@[1].value@ == "Bearer "@ + self@.credential,
    {
        let mut bearer = String::from_str("Bearer ");
        bearer.append(self.service_role_key.as_str());
        let mut headers: Vec<Header> = Vec::new();
        headers.push(
            Header { name: String::from_str("apikey"), value: self.service_role_key.clone() },
        );
        headers.push(Header { name: String::from_str("Authorization"), value: bearer });
        headers
    }

    /// The filter that confines a request to this client's tenant.
    fn own_rows(&self) -> (filter: Filter)
        ensures
            filter@ == owned_by(self@.tenant),
    {
        Filter::text(Column::UserId, self.user_id.clone())
    }

    /// This client's tenant as a cell.
    fn owner(&self) -> (cell: Cell)
        ensures
            cell@ == Datum::Text(self@.tenant),
    {
        Cell::Text(self.user_id.clone())
    }

    /// Appends the nine settable columns of `settings` to `request`.
    fn with_settings(request: Request, settings: CopyTradeSettings) -> (extended: Request)
        ensures
            extended@ == (Query {
                fields: request@.fields + settings_fields(settings),
                ..request@
            }),
    {
        let tokens = match settings.allowed_tokens {
            None => Cell::Null,
            Some(list) => Cell::TextList(list),
        };
        let extended = request
            .field(Column::IsEnabled, Cell::Flag(settings.is_enabled))
            .field(Column::TradeAmountSol, Cell::Decimal(settings.trade_amount_sol))
            .field(Column::MaxSlippage, Cell::Decimal(settings.max_slippage))
            .field(Column::MaxOpenPositions, Cell::Integer(settings.max_open_positions))
            .field(Column::AllowedTokens, tokens)
            .field(Column::UseAllowedTokensList, Cell::Flag(settings.use_allowed_tokens_list))
            .field(Column::AllowAdditionalBuys, Cell::Flag(settings.allow_additional_buys))
            .field(Column::MatchSellPercentage, Cell::Flag(settings.match_sell_percentage))
            .field(Column::MinSolBalance, Cell::Decimal(settings.min_sol_balance));
        assert(extended@.fields =~= request@.fields + settings_fields(settings));
        extended
    }

    /// Describes the listing of this tenant's tracked wallets.
    pub fn get_tracked_wallets_request(&self) -> (request: Request)
        ensures
            request@ == list_query(Table::TrackedWallets, self@.tenant),
    {
        self.list(Table::TrackedWallets)
    }

    /// Reads the answer to a listing of tracked wallets: the rows as they
    /// came, which may be none.
    pub fn get_tracked_wallets(&self, fetched: Fetched<TrackedWallet>) -> (result: Result<
        Vec<TrackedWallet>,
        AppError,
    >)
        ensures
            outcome(result) == classified(fetched, "Failed to parse wallets: "@),
    {
        fetched.into_rows("Failed to parse wallets: ")
    }

    /// Describes the insertion of `wallet`. The row is written under this
    /// client's tenant, whatever tenant `wallet` names.
    pub fn add_tracked_wallet_request(&self, wallet: TrackedWallet) -> (request: Request)
        ensures
            request@ == add_wallet_query(self@.tenant, wallet),
    {
        let request = Request::new(Table::TrackedWallets, Verb::Insert)
            .field(Column::UserId, self.owner())
            .field(Column::WalletAddress, Cell::Text(wallet.wallet_address))
            .field(Column::IsActive, Cell::Flag(wallet.is_active));
        proof {
            let query = add_wallet_query(self@.tenant, wallet);
            assert(request@.filters =~= query.filters);
            assert(request@.fields =~= query.fields);
        }
        request
    }

    /// Reads the answer to an insertion of a tracked wallet: the stored row,
    /// which bears the identity the store gave it.
    pub fn add_tracked_wallet(&self, fetched: Fetched<TrackedWallet>) -> (result: Result<
        TrackedWallet,
        AppError,
    >)
        ensures
            outcome(result) == stored_wallet(
                fetched,
                "No wallet was inserted"@,
                "Inserted wallet has no ID"@,
            ),
            result matches Ok(stored) ==> stored.id is Some,
    {
        Self::wallet_row(fetched, "No wallet was inserted", "Inserted wallet has no ID")
    }

    /// Describes the archiving of the wallet at `wallet_address`: its active
    /// flag is cleared, nothing else changes.
    pub fn archive_tracked_wallet_request(&self, wallet_address: &str) -> (request: Request)
        ensures
            request@ == set_active_query(self@.tenant, wallet_address@, false),
    {
        self.set_active(wallet_address, false)
    }

    /// Reads the answer to an archiving: a confirmation that names the
    /// wallet.
    pub fn archive_tracked_wallet(&self, fetched: Fetched<TrackedWallet>) -> (result: Result<
        String,
        AppError,
    >)
        ensures
            told(result) == confirmed(fetched, "Archived wallet: "@),
    {
        Self::confirmation(fetched, "Archived wallet: ")
    }

    /// Describes the unarchiving of the wallet at `wallet_address`: its
    /// active flag is set, nothing else changes.
    pub fn unarchive_tracked_wallet_request(&self, wallet_address: &str) -> (request: Request)
        ensures
            request@ == set_active_query(self@.tenant, wallet_address@, true),
    {
        self.set_active(wallet_address, true)
    }

    /// Reads the answer to an unarchiving: a confirmation that names the
    /// wallet.
    pub fn unarchive_tracked_wallet(&self, fetched: Fetched<TrackedWallet>) -> (result: Result<
        String,
        AppError,
    >)
        ensures
            told(result) == confirmed(fetched, "Unarchived wallet: "@),
    {
        Self::confirmation(fetched, "Unarchived wallet: ")
    }

    /// Describes the deletion of the wallet at `wallet_address`.
    pub fn delete_tracked_wallet_request(&self, wallet_address: &str) -> (request: Request)
        ensures
            request@ == delete_wallet_query(self@.tenant, wallet_address@),
    {
        let request = Request::new(Table::TrackedWallets, Verb::Delete)
            .filter(self.own_rows())
            .filter(Filter::text(Column::WalletAddress, String::from_str(wallet_address)));
        proof {
            let query = delete_wallet_query(self@.tenant, wallet_address@);
            assert(request@.filters =~= query.filters);
            assert(request@.fields =~= query.fields);
        }
        request
    }

    /// Reads the reply to a deletion of tracked wallets. A status outside
    /// 200 to 299 is a failure of data integrity that carries the status; so
    /// is a body that holds no row. Otherwise the confirmation gives the
    /// number of rows deleted.
    pub fn delete_tracked_wallet(&self, reply: Reply) -> (result: Result<String, AppError>)
        ensures
            told(result) == wallet_deleted(reply),
    {
        match Self::rows_deleted(reply, "Failed to delete tracked wallet. Status: ") {
            Ok(parsed) => Self::wallets_deleted(parsed),
            Err(error) => Err(error),
        }
    }

    /// Decides a deletion of tracked wallets from what the parser made of
    /// the body: the number of rows it holds, or its complaint.
    pub fn wallets_deleted(parsed: Result<usize, String>) -> (result: Result<String, AppError>)
        ensures
            told(result) == wallet_deletion(verdict(parsed)),
    {
        Self::deletion_decided(
            parsed,
            "No wallet found to delete",
            " tracked wallet(s) deleted successfully",
        )
    }

    /// Describes the update of `wallet`, which must bear an identity. Only a
    /// row of this client's tenant is touched, and it stays with that tenant.
    pub fn update_tracked_wallet_request(&self, wallet: TrackedWallet) -> (result: Result<
        Request,
        AppError,
    >)
        ensures
            planned(result) == update_wallet_plan(self@.tenant, wallet),
    {
        let id = match wallet.id {
            Some(id) => id,
            None => {
                return Err(
                    AppError::BadRequest(String::from_str("Wallet ID is required for update")),
                );
            },
        };
        let request = Request::new(Table::TrackedWallets, Verb::Update)
            .filter(self.own_rows())
            .filter(Filter::ident(Column::Id, id))
            .field(Column::Id, Cell::Ident(id))
            .field(Column::UserId, self.owner())
            .field(Column::WalletAddress, Cell::Text(wallet.wallet_address))
            .field(Column::IsActive, Cell::Flag(wallet.is_active));
        proof {
            let query = update_wallet_query(self@.tenant, id, wallet);
            assert(request@.filters =~= query.filters);
            assert(request@.fields =~= query.fields);
        }
        Ok(request)
    }

    /// Reads the answer to an update of a tracked wallet: the first updated
    /// row. No updated row is a failure of data integrity.
    pub fn update_tracked_wallet(&self, fetched: Fetched<TrackedWallet>) -> (result: Result<
        TrackedWallet,
        AppError,
    >)
        ensures
            outcome(result) == stored_wallet(
                fetched,
                "Failed to update wallet"@,
                "Failed to update wallet"@,
            ),
            result matches Ok(stored) ==> stored.id is Some,
    {
        Self::wallet_row(fetched, "Failed to update wallet", "Failed to update wallet")
    }

    /// Describes the listing of this tenant's copy-trade settings.
    pub fn get_copy_trade_settings_request(&self) -> (request: Request)
        ensures
            request@ == list_query(Table::CopyTradeSettings, self@.tenant),
    {
        self.list(Table::CopyTradeSettings)
    }

    /// Reads the answer to a listing of copy-trade settings: the rows as
    /// they came, which may be none.
    pub fn get_copy_trade_settings(&self, fetched: Fetched<CopyTradeSettings>) -> (result: Result<
        Vec<CopyTradeSettings>,
        AppError,
    >)
        ensures
            outcome(result) == classified(fetched, Seq::empty()),
    {
        fetched.into_plain_rows()
    }

    /// Describes the insertion of `settings`. The row is written under this
    /// client's tenant, whatever tenant `settings` names.
    pub fn create_copy_trade_settings_request(&self, settings: CopyTradeSettings) -> (request:
        Request)
        ensures
            request@ == create_settings_query(self@.tenant, settings),
    {
        let request = Request::new(Table::CopyTradeSettings, Verb::Insert)
            .field(Column::UserId, self.owner())
            .field(Column::TrackedWalletId, Cell::Ident(settings.tracked_wallet_id));
        let request = Self::with_settings(request, settings);
        assert(request@.fields =~= create_settings_query(self@.tenant, settings).fields);
        request
    }

    /// Reads the answer to an insertion of copy-trade settings: the stored
    /// row, which bears the identity the store gave it.
    pub fn create_copy_trade_settings(&self, fetched: Fetched<CopyTradeSettings>) -> (result:
        Result<CopyTradeSettings, AppError>)
        ensures
            outcome(result) == stored_settings(fetched, "Failed to create copy trade settings"@),
            result matches Ok(stored) ==> stored.id is Some,
    {
        Self::settings_row(fetched, "Failed to create copy trade settings")
    }

    /// Describes the update of the settings that belong to the tracked
    /// wallet `settings.tracked_wallet_id`. Only rows of this client's
    /// tenant are touched, and they stay with that tenant.
    pub fn update_copy_trade_settings_request(&self, settings: CopyTradeSettings) -> (request:
        Request)
        ensures
            request@ == update_settings_query(self@.tenant, settings),
    {
        let request = Request::new(Table::CopyTradeSettings, Verb::Update)
            .filter(self.own_rows())
            .filter(Filter::ident(Column::TrackedWalletId, settings.tracked_wallet_id))
            .field(Column::UserId, self.owner());
        let request = Self::with_settings(request, settings);
        assert(request@.fields =~= update_settings_query(self@.tenant, settings).fields);
        assert(request@.filters =~= update_settings_query(self@.tenant, settings).filters);
        request
    }

    /// Reads the answer to an update of copy-trade settings: the first
    /// updated row. No updated row is a failure of data integrity.
    pub fn update_copy_trade_settings(&self, fetched: Fetched<CopyTradeSettings>) -> (result:
        Result<CopyTradeSettings, AppError>)
        ensures
            outcome(result) == stored_settings(fetched, "Failed to update copy trade settings"@),
            result matches Ok(stored) ==> stored.id is Some,
    {
        Self::settings_row(fetched, "Failed to update copy trade settings")
    }

    /// Describes the deletion of the copy-trade settings of the tracked
    /// wallet `tracked_wallet_id`.
    pub fn delete_copy_trade_settings_request(&self, tracked_wallet_id: u128) -> (request: Request)
        ensures
            request@ == delete_settings_query(self@.tenant, tracked_wallet_id),
    {
        let request = Request::new(Table::CopyTradeSettings, Verb::Delete)
            .filter(self.own_rows())
            .filter(Filter::ident(Column::TrackedWalletId, tracked_wallet_id));
        proof {
            let query = delete_settings_query(self@.tenant, tracked_wallet_id);
            assert(request@.filters =~= query.filters);
            assert(request@.fields =~= query.fields);
        }
        request
    }

    /// Reads the reply to a deletion of copy-trade settings. A status
    /// outside 200 to 299 is a failure of data integrity that carries the
    /// status; so is a body that holds no row. Otherwise the confirmation
    /// gives the number of rows deleted.
    pub fn delete_copy_trade_settings(&self, reply: Reply) -> (result: Result<String, AppError>)
        ensures
            told(result) == settings_deleted(reply),
    {
        match Self::rows_deleted(reply, "Failed to delete copy trade settings. Status: ") {
            Ok(parsed) => Self::copy_trade_settings_deleted(parsed),
            Err(error) => Err(error),
        }
    }

    /// Decides a deletion of copy-trade settings from what the parser made
    /// of the body: the number of rows it holds, or its complaint.
    pub fn copy_trade_settings_deleted(parsed: Result<usize, String>) -> (result: Result<
        String,
        AppError,
    >)
        ensures
            told(result) == settings_deletion(verdict(parsed)),
    {
        Self::deletion_decided(
            parsed,
            "No copy trade settings found to delete",
            " copy trade settings deleted successfully",
        )
    }

    /// Describes the listing of this tenant's transactions.
    pub fn get_transaction_history_request(&self) -> (request: Request)
        ensures
            request@ == list_query(Table::Transactions, self@.tenant),
    {
        self.list(Table::Transactions)
    }

    /// Reads the answer to a listing of transactions: the rows as they came,
    /// which may be none.
    pub fn get_transaction_history(&self, fetched: Fetched<Transaction>) -> (result: Result<
        Vec<Transaction>,
        AppError,
    >)
        ensures
            outcome(result) == classified(fetched, "Failed to parse transactions: "@),
    {
        fetched.into_rows("Failed to parse transactions: ")
    }

    /// The request that lists this tenant's rows of `table`.
    fn list(&self, table: Table) -> (request: Request)
        ensures
            request@ == list_query(table, self@.tenant),
    {
        let request = Request::new(table, Verb::Select).filter(self.own_rows());
        proof {
            let query = list_query(table, self@.tenant);
            assert(request@.filters =~= query.filters);
            assert(request@.fields =~= query.fields);
        }
        request
    }

    /// The request that sets the active flag of the wallet at `address`.
    fn set_active(&self, address: &str, active: bool) -> (request: Request)
        ensures
            request@ == set_active_query(self@.tenant, address@, active),
    {
        let request = Request::new(Table::TrackedWallets, Verb::Update)
            .filter(self.own_rows())
            .filter(Filter::text(Column::WalletAddress, String::from_str(address)))
            .field(Column::IsActive, Cell::Flag(active));
        proof {
            let query = set_active_query(self@.tenant, address@, active);
            assert(request@.filters =~= query.filters);
            assert(request@.fields =~= query.fields);
        }
        request
    }

    /// How far the reply to a deletion gets: to the parser's verdict on the
    /// body, or to a failure before that.
    fn rows_deleted(reply: Reply, refusal: &str) -> (result: Result<
        Result<usize, String>,
        AppError,
    >)
        ensures
            match result {
                Ok(parsed) => deletion_read(reply, refusal@) == Ok::<
                    Result<nat, Seq<char>>,
                    Failure,
                >(verdict(parsed)),
                Err(error) => deletion_read(reply, refusal@) == Err::<
                    Result<nat, Seq<char>>,
                    Failure,
                >(error@),
            },
    {
        match reply {
            Reply::Failed(reason) => Err(AppError::RequestError(reason)),
            Reply::Unread { status, reason } => {
                if status.is_success() {
                    Err(AppError::RequestError(reason))
                } else {
                    Err(Self::unexpected(refusal, status))
                }
            },
            Reply::Received { status, body } => {
                if status.is_success() {
                    match parse_rows(body.as_str()) {
                        Ok(rows) => Ok(Ok(rows.len())),
                        Err(complaint) => Ok(Err(complaint)),
                    }
                } else {
                    Err(Self::unexpected(refusal, status))
                }
            },
        }
    }

    /// Decides a deletion from the parser's verdict, with the words of the
    /// resource.
    fn deletion_decided(parsed: Result<usize, String>, nothing: &str, done: &str) -> (result:
        Result<String, AppError>)
        ensures
            told(result) == deletion(verdict(parsed), nothing@, done@),
    {
        match parsed {
            Err(complaint) => Err(AppError::JsonParseError(complaint)),
            Ok(count) => {
                if count == 0 {
                    Err(AppError::DatabaseError(String::from_str(nothing)))
                } else {
                    let mut message = decimal_text(count);
                    message.append(done);
                    Ok(message)
                }
            },
        }
    }

    /// The failure that reports an unexpected status.
    fn unexpected(words: &str, status: Status) -> (error: AppError)
        ensures
            Err::<(), Failure>(error@) == refused::<()>(words@, status@),
    {
        let line = status.line();
        Self::status_failure(words, line.as_str())
    }

    /// The failure of data integrity whose message is `words` followed by
    /// the status as written out in `line`.
    pub fn status_failure(words: &str, line: &str) -> (error: AppError)
        ensures
            error@ == (Failure { kind: ErrorKind::DataIntegrity, message: words@ + line@ }),
    {
        let mut message = String::from_str(words);
        message.append(line);
        AppError::DatabaseError(message)
    }

    /// The first row of the answer to a write of a tracked wallet.
    fn wallet_row(fetched: Fetched<TrackedWallet>, absent: &str, unnamed: &str) -> (result: Result<
        TrackedWallet,
        AppError,
    >)
        ensures
            outcome(result) == stored_wallet(fetched, absent@, unnamed@),
    {
        let rows = match fetched.into_plain_rows() {
            Ok(rows) => rows,
            Err(error) => {
                return Err(error);
            },
        };
        match first_row(rows) {
            Some(row) => {
                if row.id.is_some() {
                    Ok(row)
                } else {
                    Err(AppError::DatabaseError(String::from_str(unnamed)))
                }
            },
            None => Err(AppError::DatabaseError(String::from_str(absent))),
        }
    }

    /// The confirmation that names the first row of the answer.
    fn confirmation(fetched: Fetched<TrackedWallet>, words: &str) -> (result: Result<
        String,
        AppError,
    >)
        ensures
            told(result) == confirmed(fetched, words@),
    {
        let rows = match fetched.into_plain_rows() {
            Ok(rows) => rows,
            Err(error) => {
                return Err(error);
            },
        };
        match first_row(rows) {
            Some(row) => {
                let mut message = String::from_str(words);
                message.append(row.wallet_address.as_str());
                Ok(message)
            },
            None => Err(AppError::DatabaseError(String::from_str("No wallet was updated"))),
        }
    }

    /// The first row of the answer to a write of copy-trade settings.
    fn settings_row(fetched: Fetched<CopyTradeSettings>, complaint: &str) -> (result: Result<
        CopyTradeSettings,
        AppError,
    >)
        ensures
            outcome(result) == stored_settings(fetched, complaint@),
    {
        let rows = match fetched.into_plain_rows() {
            Ok(rows) => rows,
            Err(error) => {
                return Err(error);
            },
        };
        match first_row(rows) {
            Some(row) => {
                if row.id.is_some() {
                    Ok(row)
                } else {
                    Err(AppError::DatabaseError(String::from_str(complaint)))
                }
            },
            None => Err(AppError::DatabaseError(String::from_str(complaint))),
        }
    }
}

} // verus!
