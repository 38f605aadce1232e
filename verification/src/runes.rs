//! Data model of the Bitcoin-facing client.
//!
//! The network client itself — fetching prices, transaction history, fee
//! estimates and portfolio records over RPC — is an external collaborator
//! of the core and lives outside it.  The types here define the values
//! that cross that boundary.

use vstd::prelude::*;

verus! {

/// Errors of the Bitcoin-facing client boundary.
#[derive(Debug, Clone, PartialEq)]
pub enum RunesError {
    InvalidSignature,
    InsufficientSignatures,
    InvalidAdminKeys,
    BitcoinRPC(String),
}

/// How a portfolio position was entered.
#[derive(Debug, Clone, Copy, PartialEq, Eq, Structural)]
pub enum PositionType {
    PreTGE,
    PostTGE,
}

/// Lifecycle of a portfolio position.
#[derive(Debug, Clone, Copy, PartialEq, Eq, Structural)]
pub enum PositionStatus {
    Active,
    Exited,
    Pending,
}

/// One portfolio position tracked by the client.
#[derive(Debug, Clone)]
pub struct PortfolioPosition {
    pub name: String,
    pub amount: u64,
    pub price_per_token: u64,
    pub currency_spent: u64,
    pub transaction_id: Option<String>,
    pub safe_inscription_id: Option<String>,
    pub entry_timestamp: u64,
    pub position_type: PositionType,
    pub status: PositionStatus,
}

/// Metadata of a deployed rune.
#[derive(Debug, Clone)]
pub struct RuneInfo {
    pub symbol: String,
    pub decimals: u8,
    pub supply: u64,
    pub limit: Option<u64>,
}

/// Progress of a submitted transaction.
#[derive(Debug, Clone, Copy, PartialEq, Eq, Structural)]
pub enum TransactionStatus {
    Pending,
    Confirmed,
    Failed,
}

/// One transaction as the client reports it.
#[derive(Debug, Clone)]
pub struct TransactionInfo {
    pub txid: String,
    pub timestamp: u64,
    pub amount: u64,
    pub confirmations: u32,
    pub fee: u64,
    pub status: TransactionStatus,
}

/// One unspent output as the client reports it.
#[derive(Debug, Clone)]
pub struct UTXO {
    pub txid: String,
    pub vout: u32,
    pub amount: u64,
    pub script_pubkey: String,
    pub confirmations: u32,
}

/// Fee estimates by confirmation urgency.
#[derive(Debug, Clone, Copy, PartialEq, Eq, Structural)]
pub struct FeeEstimate {
    pub fast: u64,
    pub medium: u64,
    pub slow: u64,
}

/// Health of the network as the client reports it.
#[derive(Debug, Clone, Copy, PartialEq, Eq, Structural)]
pub struct NetworkStatus {
    pub connected_peers: u32,
    pub latest_block: u32,
    pub mempool_size: u32,
    pub network_hashrate: u64,
}

} // verus!
