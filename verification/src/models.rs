//! The three tenant-scoped entities.

use vstd::prelude::*;

verus! {

/// A point in time, as seconds since the Unix epoch and the nanoseconds
/// within that second. The store assigns timestamps; this crate only carries
/// them.
#[derive(Clone, Copy, Debug, PartialEq, Eq, Structural)]
pub struct Timestamp {
    pub seconds: i64,
    pub nanos: u32,
}

/// A decimal quantity, held as the bit pattern of its IEEE 754 binary64
/// encoding. The crate never computes with quantities; it moves them between
/// entities and requests unchanged.
#[derive(Clone, Copy, Debug, PartialEq, Eq, Structural)]
pub struct Decimal {
    pub bits: u64,
}

/// A wallet whose trades are followed.
#[derive(Clone, Debug, PartialEq, Eq)]
pub struct TrackedWallet {
    /// Absent until the store has created the row.
    pub id: Option<u128>,
    /// The tenant that owns the row.
    pub user_id: String,
    pub wallet_address: String,
    /// Cleared when the wallet is archived.
    pub is_active: bool,
    pub created_at: Option<Timestamp>,
    pub updated_at: Option<Timestamp>,
}

/// How trades of one tracked wallet are copied.
#[derive(Clone, Debug, PartialEq, Eq)]
pub struct CopyTradeSettings {
    /// Absent until the store has created the row.
    pub id: Option<u128>,
    /// The tenant that owns the row.
    pub user_id: String,
    /// The tracked wallet these settings belong to.
    pub tracked_wallet_id: u128,
    pub is_enabled: bool,
    pub trade_amount_sol: Decimal,
    pub max_slippage: Decimal,
    pub max_open_positions: i32,
    pub allowed_tokens: Option<Vec<String>>,
    pub use_allowed_tokens_list: bool,
    pub allow_additional_buys: bool,
    pub match_sell_percentage: bool,
    pub min_sol_balance: Decimal,
    pub created_at: Option<Timestamp>,
    pub updated_at: Option<Timestamp>,
}

/// One recorded transaction. Transactions are only ever read.
#[derive(Clone, Debug, PartialEq, Eq)]
pub struct Transaction {
    pub id: u128,
    /// The tenant that owns the row.
    pub user_id: String,
    pub tracked_wallet_id: Option<u128>,
    pub signature: String,
    pub transaction_type: String,
    pub token_address: String,
    pub amount: Decimal,
    pub price_sol: Decimal,
    pub timestamp: Timestamp,
}

/// The texts of a list of strings.
pub open spec fn texts(list: Seq<String>) -> Seq<Seq<char>> {
    list.map_values(|s: String| s@)
}

} // verus!
