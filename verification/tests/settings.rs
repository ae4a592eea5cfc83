use copytrade_store::{
    AppError, Cell, Column, CopyTradeSettings, Decimal, ErrorKind, Fetched, Field, Filter, Key,
    Reply, Request, Status, SupabaseClient, Table, Timestamp, Transaction, Verb,
};

const WALLET: u128 = 0xa1a2a3a4b1b2c1c2d1d2d3d4d5d6d7d8;

fn client() -> SupabaseClient {
    SupabaseClient::new("https://store.example", "public-key", "service-key", "tenant-1")
}

fn amount(value: f64) -> Decimal {
    Decimal { bits: value.to_bits() }
}

fn settings(id: Option<u128>, owner: &str, tokens: Option<Vec<String>>) -> CopyTradeSettings {
    CopyTradeSettings {
        id,
        user_id: owner.to_string(),
        tracked_wallet_id: WALLET,
        is_enabled: true,
        trade_amount_sol: amount(0.25),
        max_slippage: amount(0.05),
        max_open_positions: 3,
        allowed_tokens: tokens,
        use_allowed_tokens_list: false,
        allow_additional_buys: true,
        match_sell_percentage: false,
        min_sol_balance: amount(1.5),
        created_at: None,
        updated_at: None,
    }
}

fn settable(tokens: Cell) -> Vec<Field> {
    vec![
        Field { column: Column::IsEnabled, value: Cell::Flag(true) },
        Field { column: Column::TradeAmountSol, value: Cell::Decimal(amount(0.25)) },
        Field { column: Column::MaxSlippage, value: Cell::Decimal(amount(0.05)) },
        Field { column: Column::MaxOpenPositions, value: Cell::Integer(3) },
        Field { column: Column::AllowedTokens, value: tokens },
        Field { column: Column::UseAllowedTokensList, value: Cell::Flag(false) },
        Field { column: Column::AllowAdditionalBuys, value: Cell::Flag(true) },
        Field { column: Column::MatchSellPercentage, value: Cell::Flag(false) },
        Field { column: Column::MinSolBalance, value: Cell::Decimal(amount(1.5)) },
    ]
}

fn owner_field() -> Field {
    Field { column: Column::UserId, value: Cell::Text("tenant-1".to_string()) }
}

fn tenant_filter() -> Filter {
    Filter { column: Column::UserId, key: Key::Text("tenant-1".to_string()) }
}

fn status(code: u16) -> Status {
    Status::new(code).expect("a code between 100 and 999")
}

fn got<T>(rows: Vec<T>) -> Fetched<T> {
    Fetched::Decoded { status: status(200), body: String::new(), rows }
}

fn garbled<T>(complaint: &str) -> Fetched<T> {
    Fetched::Undecoded {
        status: status(200),
        body: String::new(),
        complaint: complaint.to_string(),
    }
}

#[test]
fn creating_settings_forces_the_tenant_and_writes_every_settable_column() {
    let tokens = vec!["So111".to_string(), "EPjF".to_string()];
    let request = client()
        .create_copy_trade_settings_request(settings(Some(5), "intruder", Some(tokens.clone())));
    let mut fields = vec![
        owner_field(),
        Field { column: Column::TrackedWalletId, value: Cell::Ident(WALLET) },
    ];
    fields.extend(settable(Cell::TextList(tokens)));
    assert_eq!(
        request,
        Request { table: Table::CopyTradeSettings, verb: Verb::Insert, filters: vec![], fields }
    );
}

#[test]
fn an_absent_allow_list_is_written_as_null() {
    let request = client().create_copy_trade_settings_request(settings(None, "tenant-1", None));
    assert_eq!(request.fields[6], Field { column: Column::AllowedTokens, value: Cell::Null });
}

#[test]
fn updating_settings_filters_on_tenant_and_wallet_reference() {
    let request = client().update_copy_trade_settings_request(settings(None, "intruder", None));
    let mut fields = vec![owner_field()];
    fields.extend(settable(Cell::Null));
    assert_eq!(
        request,
        Request {
            table: Table::CopyTradeSettings,
            verb: Verb::Update,
            filters: vec![
                tenant_filter(),
                Filter { column: Column::TrackedWalletId, key: Key::Ident(WALLET) },
            ],
            fields,
        }
    );
}

#[test]
fn updating_settings_twice_with_the_same_input_asks_the_same() {
    let c = client();
    let input = settings(Some(1), "tenant-1", None);
    assert_eq!(
        c.update_copy_trade_settings_request(input.clone()),
        c.update_copy_trade_settings_request(input)
    );
}

#[test]
fn written_settings_come_back_with_their_identity() {
    let c = client();
    let stored = settings(Some(77), "tenant-1", None);
    assert_eq!(c.create_copy_trade_settings(got(vec![stored.clone()])), Ok(stored.clone()));
    assert_eq!(
        c.update_copy_trade_settings(got(vec![stored.clone(), settings(Some(78), "tenant-1", None)])),
        Ok(stored)
    );
}

#[test]
fn settings_writes_without_a_row_are_data_integrity_failures() {
    let c = client();
    assert_eq!(
        c.create_copy_trade_settings(got(vec![])),
        Err(AppError::DatabaseError("Failed to create copy trade settings".to_string()))
    );
    assert_eq!(
        c.create_copy_trade_settings(got(vec![settings(None, "tenant-1", None)])),
        Err(AppError::DatabaseError("Failed to create copy trade settings".to_string()))
    );
    assert_eq!(
        c.update_copy_trade_settings(got(vec![])),
        Err(AppError::DatabaseError("Failed to update copy trade settings".to_string()))
    );
    assert_eq!(
        c.update_copy_trade_settings(got(vec![settings(None, "tenant-1", None)])),
        Err(AppError::DatabaseError("Failed to update copy trade settings".to_string()))
    );
}

#[test]
fn updating_settings_for_an_unknown_wallet_surfaces_the_stores_refusal() {
    let report = "{\"code\":\"23503\",\"message\":\"insert or update on table \\\"copy_trade_settings\\\" violates foreign key constraint\"}";
    let reply = Fetched::Undecoded {
        status: status(409),
        body: report.to_string(),
        complaint: "invalid type: map, expected a sequence at line 1 column 0".to_string(),
    };
    let error = client().update_copy_trade_settings(reply).expect_err("refused by the store");
    assert_eq!(error, AppError::PostgrestError(report.to_string()));
    assert_eq!(error.kind(), ErrorKind::RemoteQueryFailure);
    assert_eq!(error.status_code(), 500);
    assert_eq!(error.into_response(), (500, report.to_string()));
}

#[test]
fn every_way_of_failing_an_exchange_keeps_its_own_kind() {
    let c = client();
    let exchange = c.get_copy_trade_settings(Fetched::Failed("e".to_string()));
    let unread = c.get_copy_trade_settings(Fetched::Unread {
        status: status(200),
        reason: "b".to_string(),
    });
    let refused = c.get_copy_trade_settings(Fetched::Undecoded {
        status: status(500),
        body: "q".to_string(),
        complaint: "m".to_string(),
    });
    let shape = c.get_copy_trade_settings(garbled("m"));
    assert_eq!(exchange, Err(AppError::RequestError("e".to_string())));
    assert_eq!(unread, Err(AppError::RequestError("b".to_string())));
    assert_eq!(refused, Err(AppError::PostgrestError("q".to_string())));
    assert_eq!(shape, Err(AppError::JsonParseError("m".to_string())));
}

#[test]
fn listing_settings_hands_the_rows_on() {
    let c = client();
    assert_eq!(
        c.get_copy_trade_settings_request(),
        Request {
            table: Table::CopyTradeSettings,
            verb: Verb::Select,
            filters: vec![tenant_filter()],
            fields: vec![],
        }
    );
    assert_eq!(c.get_copy_trade_settings(got(vec![])), Ok(vec![]));
    let rows = vec![settings(Some(1), "tenant-1", None), settings(Some(2), "tenant-1", None)];
    assert_eq!(c.get_copy_trade_settings(got(rows.clone())), Ok(rows));
}

#[test]
fn deleting_settings_filters_on_tenant_and_wallet_reference() {
    let request = client().delete_copy_trade_settings_request(WALLET);
    assert_eq!(
        request,
        Request {
            table: Table::CopyTradeSettings,
            verb: Verb::Delete,
            filters: vec![
                tenant_filter(),
                Filter { column: Column::TrackedWalletId, key: Key::Ident(WALLET) },
            ],
            fields: vec![],
        }
    );
}

#[test]
fn deleting_settings_counts_the_rows_that_were_deleted() {
    let c = client();
    assert_eq!(
        c.delete_copy_trade_settings(Reply::Received {
            status: status(200),
            body: "[{\"is_enabled\":true}]".to_string()
        }),
        Ok("1 copy trade settings deleted successfully".to_string())
    );
    assert_eq!(
        c.delete_copy_trade_settings(Reply::Received {
            status: status(200),
            body: "[{},{},{}]".to_string()
        }),
        Ok("3 copy trade settings deleted successfully".to_string())
    );
}

#[test]
fn deleting_settings_that_are_not_there_is_a_data_integrity_failure() {
    let c = client();
    for code in [200u16, 204, 299] {
        let error = c
            .delete_copy_trade_settings(Reply::Received {
                status: status(code),
                body: "[]".to_string(),
            })
            .expect_err("nothing was deleted");
        assert_eq!(
            error,
            AppError::DatabaseError("No copy trade settings found to delete".to_string())
        );
        assert_eq!(error.kind(), ErrorKind::DataIntegrity);
        assert_eq!(error.status_code(), 500);
    }
}

#[test]
fn deleting_settings_with_an_unexpected_status_carries_the_status() {
    let c = client();
    assert_eq!(
        c.delete_copy_trade_settings(Reply::Received {
            status: status(409),
            body: "[{}]".to_string()
        }),
        Err(AppError::DatabaseError(
            "Failed to delete copy trade settings. Status: 409 Conflict".to_string()
        ))
    );
    assert_eq!(
        c.delete_copy_trade_settings(Reply::Unread {
            status: status(503),
            reason: "closed".to_string()
        }),
        Err(AppError::DatabaseError(
            "Failed to delete copy trade settings. Status: 503 Service Unavailable".to_string()
        ))
    );
}

#[test]
fn deleting_settings_tells_transport_from_decode_failures() {
    let c = client();
    assert_eq!(
        c.delete_copy_trade_settings(Reply::Failed("no route to host".to_string())),
        Err(AppError::RequestError("no route to host".to_string()))
    );
    assert_eq!(
        c.delete_copy_trade_settings(Reply::Unread {
            status: status(200),
            reason: "closed".to_string()
        }),
        Err(AppError::RequestError("closed".to_string()))
    );
    let empty = c
        .delete_copy_trade_settings(Reply::Received { status: status(204), body: String::new() })
        .expect_err("no list in the body");
    assert_eq!(empty.kind(), ErrorKind::ResponseDecodeFailure);
    assert_eq!(empty.message(), "EOF while parsing a value at line 1 column 0");
}

#[test]
fn deciding_a_settings_deletion_from_the_parsers_verdict() {
    assert_eq!(
        SupabaseClient::copy_trade_settings_deleted(Ok(2)),
        Ok("2 copy trade settings deleted successfully".to_string())
    );
    assert_eq!(
        SupabaseClient::copy_trade_settings_deleted(Ok(0)),
        Err(AppError::DatabaseError("No copy trade settings found to delete".to_string()))
    );
    assert_eq!(
        SupabaseClient::copy_trade_settings_deleted(Err("expected value".to_string())),
        Err(AppError::JsonParseError("expected value".to_string()))
    );
}

#[test]
fn listing_transactions_filters_on_the_tenant_and_hands_the_rows_on() {
    let c = client();
    assert_eq!(
        c.get_transaction_history_request(),
        Request {
            table: Table::Transactions,
            verb: Verb::Select,
            filters: vec![tenant_filter()],
            fields: vec![],
        }
    );
    let row = Transaction {
        id: 9,
        user_id: "tenant-1".to_string(),
        tracked_wallet_id: Some(WALLET),
        signature: "5h3k".to_string(),
        transaction_type: "buy".to_string(),
        token_address: "So111".to_string(),
        amount: amount(10.0),
        price_sol: amount(0.002),
        timestamp: Timestamp { seconds: 1_700_000_000, nanos: 250 },
    };
    assert_eq!(c.get_transaction_history(got(vec![])), Ok(vec![]));
    assert_eq!(c.get_transaction_history(got(vec![row.clone()])), Ok(vec![row]));
    assert_eq!(
        c.get_transaction_history(garbled("missing field `id`")),
        Err(AppError::JsonParseError(
            "Failed to parse transactions: missing field `id`".to_string()
        ))
    );
}
