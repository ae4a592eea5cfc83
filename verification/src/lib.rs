//! Tenant-scoped data access for a copy-trading service.
//!
//! The crate turns typed operations on tracked wallets, copy-trade settings
//! and the transaction history into descriptions of requests against a
//! table-filter query interface, and turns what the store answered into typed
//! results or classified errors. It performs no I/O itself: a caller sends
//! each request and hands back what arrived.
//!
//! - [`db`] holds the client, with one request and one reading per operation.
//! - [`request`] and [`reply`] hold what goes to the store and what comes back.
//! - [`error`] holds the error taxonomy, [`models`] the entities.
//! - [`wire`] and [`text`] write identifiers, statuses and counts.
//! - [`store`] models the store; [`laws`] states what the client's requests
//!   achieve against it: tenant isolation, round trips, idempotence.

pub mod db;
pub mod error;
pub mod laws;
pub mod models;
pub mod reply;
pub mod request;
pub mod store;
pub mod text;
pub mod wire;

pub use db::{Header, SupabaseClient};
pub use error::{AppError, ErrorKind};
pub use models::{CopyTradeSettings, Decimal, Timestamp, TrackedWallet, Transaction};
pub use reply::{Fetched, Reply, Status};
pub use request::{Cell, Column, Field, Filter, Key, Request, Table, Verb};
