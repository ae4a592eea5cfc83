use copytrade_store::text::decimal_text;
use copytrade_store::{
    AppError, Column, ErrorKind, Fetched, Filter, Header, Key, Status, SupabaseClient, Table,
    TrackedWallet, Verb,
};

#[test]
fn each_error_has_its_kind_status_and_label() {
    let cases = vec![
        (AppError::DatabaseError("m".to_string()), ErrorKind::DataIntegrity, 500, "Database error: m"),
        (AppError::BadRequest("m".to_string()), ErrorKind::Validation, 400, "Bad request: m"),
        (
            AppError::PostgrestError("m".to_string()),
            ErrorKind::RemoteQueryFailure,
            500,
            "Postgrest error: m",
        ),
        (
            AppError::JsonParseError("m".to_string()),
            ErrorKind::ResponseDecodeFailure,
            400,
            "Json parse error: m",
        ),
        (AppError::RequestError("m".to_string()), ErrorKind::Transport, 400, "Request error: m"),
        (
            AppError::ConfigError("m".to_string()),
            ErrorKind::Configuration,
            500,
            "Configuration error: m",
        ),
    ];
    for (error, kind, status, text) in cases {
        assert_eq!(error.kind(), kind);
        assert_eq!(error.status_code(), status);
        assert_eq!(error.message(), "m");
        assert_eq!(error.to_string(), text);
        assert_eq!(error.into_response(), (status, "m".to_string()));
    }
}

#[test]
fn the_six_kinds_are_pairwise_different() {
    let kinds = [
        ErrorKind::Transport,
        ErrorKind::RemoteQueryFailure,
        ErrorKind::ResponseDecodeFailure,
        ErrorKind::DataIntegrity,
        ErrorKind::Validation,
        ErrorKind::Configuration,
    ];
    for (i, a) in kinds.iter().enumerate() {
        for (j, b) in kinds.iter().enumerate() {
            assert_eq!(a == b, i == j);
        }
    }
}

#[test]
fn counts_are_written_in_decimal() {
    assert_eq!(decimal_text(0), "0");
    assert_eq!(decimal_text(7), "7");
    assert_eq!(decimal_text(10), "10");
    assert_eq!(decimal_text(4096), "4096");
    assert_eq!(decimal_text(usize::MAX), usize::MAX.to_string());
}

#[test]
fn identifiers_are_written_hyphenated_in_lower_case() {
    let key = Key::Ident(0xA1A2A3A4B1B2C1C2D1D2D3D4D5D6D7D8);
    assert_eq!(key.text(), "a1a2a3a4-b1b2-c1c2-d1d2-d3d4d5d6d7d8");
    assert_eq!(Key::Ident(0).text(), "00000000-0000-0000-0000-000000000000");
    assert_eq!(Key::Ident(0x1f).text(), "00000000-0000-0000-0000-00000000001f");
    assert_eq!(Key::Ident(u128::MAX).text(), "ffffffff-ffff-ffff-ffff-ffffffffffff");
    assert_eq!(Key::Text("Wabc".to_string()).text(), "Wabc");
}

#[test]
fn filters_render_as_column_name_and_text() {
    let by_owner = Filter { column: Column::UserId, key: Key::Text("tenant-1".to_string()) };
    assert_eq!(by_owner.pair(), ("user_id", "tenant-1".to_string()));
    let by_id = Filter::ident(Column::Id, 0x10);
    assert_eq!(by_id.pair(), ("id", "00000000-0000-0000-0000-000000000010".to_string()));
    assert_eq!(Filter::text(Column::WalletAddress, "W".to_string()), Filter {
        column: Column::WalletAddress,
        key: Key::Text("W".to_string())
    });
}

#[test]
fn tables_and_columns_bear_the_stores_names() {
    assert_eq!(Table::TrackedWallets.name(), "tracked_wallets");
    assert_eq!(Table::CopyTradeSettings.name(), "copy_trade_settings");
    assert_eq!(Table::Transactions.name(), "transactions");
    let columns = [
        (Column::Id, "id"),
        (Column::UserId, "user_id"),
        (Column::WalletAddress, "wallet_address"),
        (Column::IsActive, "is_active"),
        (Column::TrackedWalletId, "tracked_wallet_id"),
        (Column::IsEnabled, "is_enabled"),
        (Column::TradeAmountSol, "trade_amount_sol"),
        (Column::MaxSlippage, "max_slippage"),
        (Column::MaxOpenPositions, "max_open_positions"),
        (Column::AllowedTokens, "allowed_tokens"),
        (Column::UseAllowedTokensList, "use_allowed_tokens_list"),
        (Column::AllowAdditionalBuys, "allow_additional_buys"),
        (Column::MatchSellPercentage, "match_sell_percentage"),
        (Column::MinSolBalance, "min_sol_balance"),
    ];
    for (column, name) in columns {
        assert_eq!(column.name(), name);
    }
}

#[test]
fn statuses_lie_between_100_and_999() {
    assert_eq!(Status::new(99), None);
    assert_eq!(Status::new(1000), None);
    assert_eq!(Status::new(0), None);
    assert_eq!(Status::new(100).map(|s| s.code()), Some(100));
    assert_eq!(Status::new(999).map(|s| s.code()), Some(999));
}

#[test]
fn success_means_two_hundred_to_two_ninety_nine() {
    let verdicts: Vec<(u16, bool)> =
        vec![(100, false), (199, false), (200, true), (204, true), (299, true), (300, false), (404, false)];
    for (code, success) in verdicts {
        assert_eq!(Status::new(code).expect("in range").is_success(), success);
    }
}

#[test]
fn statuses_are_written_with_their_reason() {
    assert_eq!(Status::new(200).expect("in range").line(), "200 OK");
    assert_eq!(Status::new(404).expect("in range").line(), "404 Not Found");
    assert_eq!(Status::new(204).expect("in range").line(), "204 No Content");
}

#[test]
fn a_client_keeps_its_configuration() {
    let client = SupabaseClient::new("https://store.example", "public", "secret", "tenant-1");
    assert_eq!(client.url(), "https://store.example");
    assert_eq!(client.user_id(), "tenant-1");
    assert_eq!(
        client.headers(),
        vec![
            Header { name: "apikey".to_string(), value: "secret".to_string() },
            Header { name: "Authorization".to_string(), value: "Bearer secret".to_string() },
        ]
    );
}

#[test]
fn configuring_reports_the_first_missing_setting() {
    let some = |s: &str| Some(s.to_string());
    assert_eq!(
        SupabaseClient::configure(None, None, None, None),
        Err(AppError::ConfigError("SUPABASE_URL must be set".to_string()))
    );
    assert_eq!(
        SupabaseClient::configure(some("u"), None, None, None),
        Err(AppError::ConfigError("SUPABASE_SERVICE_ROLE_KEY must be set".to_string()))
    );
    assert_eq!(
        SupabaseClient::configure(some("u"), some("s"), None, None),
        Err(AppError::ConfigError("SUPABASE_API_KEY must be set".to_string()))
    );
    assert_eq!(
        SupabaseClient::configure(some("u"), some("s"), some("a"), None),
        Err(AppError::ConfigError("USER_ID must be set".to_string()))
    );
    assert_eq!(
        SupabaseClient::configure(some("u"), some("s"), some("a"), some("t")),
        Ok(SupabaseClient::new("u", "a", "s", "t"))
    );
    let error = SupabaseClient::configure(None, some("s"), some("a"), some("t")).expect_err("no url");
    assert_eq!(error.kind(), ErrorKind::Configuration);
    assert_eq!(error.status_code(), 500);
}

#[test]
fn classifying_an_exchange_prefaces_only_the_decode_complaint() {
    let ok = || Status::new(200).expect("in range");
    let conflict = || Status::new(409).expect("in range");
    let rows: Fetched<TrackedWallet> = Fetched::Undecoded {
        status: ok(),
        body: "{}".to_string(),
        complaint: "bad".to_string(),
    };
    assert_eq!(
        rows.into_rows("While reading: "),
        Err(AppError::JsonParseError("While reading: bad".to_string()))
    );
    let rows: Fetched<TrackedWallet> = Fetched::Undecoded {
        status: conflict(),
        body: "{}".to_string(),
        complaint: "bad".to_string(),
    };
    assert_eq!(rows.into_rows("While reading: "), Err(AppError::PostgrestError("{}".to_string())));
    let rows: Fetched<TrackedWallet> = Fetched::Failed("bad".to_string());
    assert_eq!(rows.into_rows("While reading: "), Err(AppError::RequestError("bad".to_string())));
    let rows: Fetched<TrackedWallet> = Fetched::Unread { status: ok(), reason: "bad".to_string() };
    assert_eq!(rows.into_rows("While reading: "), Err(AppError::RequestError("bad".to_string())));
    let rows: Fetched<TrackedWallet> =
        Fetched::Unread { status: conflict(), reason: "bad".to_string() };
    assert_eq!(rows.into_plain_rows(), Err(AppError::RequestError("bad".to_string())));
    let rows: Fetched<u8> =
        Fetched::Decoded { status: ok(), body: "[3,1,2]".to_string(), rows: vec![3, 1, 2] };
    assert_eq!(rows.into_rows("While reading: "), Ok(vec![3, 1, 2]));
    let rows: Fetched<u8> =
        Fetched::Decoded { status: conflict(), body: "[3]".to_string(), rows: vec![3] };
    assert_eq!(rows.into_plain_rows(), Err(AppError::PostgrestError("[3]".to_string())));
    let rows: Fetched<u8> =
        Fetched::Undecoded { status: ok(), body: "x".to_string(), complaint: "bad".to_string() };
    assert_eq!(rows.into_plain_rows(), Err(AppError::JsonParseError("bad".to_string())));
}

#[test]
fn a_status_is_written_with_its_number_first() {
    for code in [100u16, 200, 204, 404, 418, 599, 799, 999] {
        let line = Status::new(code).expect("in range").line();
        assert!(line.starts_with(&format!("{} ", code)), "{}", line);
    }
    assert_eq!(Status::new(799).expect("in range").line(), "799 <unknown status code>");
}

#[test]
fn the_first_row_is_the_first_or_none() {
    assert_eq!(copytrade_store::reply::first_row(Vec::<u8>::new()), None);
    assert_eq!(copytrade_store::reply::first_row(vec![4u8]), Some(4));
    assert_eq!(copytrade_store::reply::first_row(vec![7u8, 8, 9]), Some(7));
}

#[test]
fn a_status_failure_joins_the_words_and_the_status() {
    assert_eq!(
        SupabaseClient::status_failure("Failed. Status: ", "503 Service Unavailable"),
        AppError::DatabaseError("Failed. Status: 503 Service Unavailable".to_string())
    );
    assert_eq!(SupabaseClient::status_failure("", ""), AppError::DatabaseError(String::new()));
}

#[test]
fn only_a_selection_asks_for_columns() {
    assert_eq!(Verb::Select.columns(), Some("*"));
    assert_eq!(Verb::Insert.columns(), None);
    assert_eq!(Verb::Update.columns(), None);
    assert_eq!(Verb::Delete.columns(), None);
}
