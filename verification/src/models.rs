//! The records that move through the library.
//!
//! Identifiers are held as the 128-bit number that a UUID spells, moments as
//! [`Timestamp`], prices and amounts as [`Binary64`].

use crate::ambient::{now_utc, Timestamp};
use crate::binary64::Binary64;
use vstd::prelude::*;
use vstd::string::StringExecFns;

verus! {

/// What a trade did with the token.
#[derive(Debug, Clone, Copy, PartialEq, Eq, Structural)]
pub enum TransactionType {
    Buy,
    Sell,
    Transfer,
    Unknown,
}

impl TransactionType {
    /// The name of the kind, as it is written into logs and requests.
    pub open spec fn label(self) -> Seq<char> {
        match self {
            TransactionType::Buy => "Buy"@,
            TransactionType::Sell => "Sell"@,
            TransactionType::Transfer => "Transfer"@,
            TransactionType::Unknown => "Unknown"@,
        }
    }

    /// The name of the kind.
    pub fn name(&self) -> (name: String)
        ensures
            name@ == self.label(),
    {
        match self {
            TransactionType::Buy => String::from_str("Buy"),
            TransactionType::Sell => String::from_str("Sell"),
            TransactionType::Transfer => String::from_str("Transfer"),
            TransactionType::Unknown => String::from_str("Unknown"),
        }
    }
}

/// The venue on which a trade took place.
#[derive(Debug, Clone, Copy, PartialEq, Eq, Structural)]
pub enum DexType {
    PumpFun,
    Raydium,
    Unknown,
}

/// A trade of a tracked wallet, as the feed reported it.
#[derive(Debug)]
pub struct ClientTxInfo {
    pub signature: String,
    pub token_address: String,
    pub token_name: String,
    pub token_symbol: String,
    pub transaction_type: TransactionType,
    pub amount_token: Binary64,
    pub amount_sol: Binary64,
    pub price_per_token: Binary64,
    pub token_image_uri: String,
    pub market_cap: Binary64,
    pub usd_market_cap: Binary64,
    pub timestamp: i64,
    pub seller: String,
    pub buyer: String,
    pub dex_type: DexType,
}

impl Clone for ClientTxInfo {
    fn clone(&self) -> (copy: Self)
        ensures
            copy == *self,
    {
        ClientTxInfo {
            signature: self.signature.clone(),
            token_address: self.token_address.clone(),
            token_name: self.token_name.clone(),
            token_symbol: self.token_symbol.clone(),
            transaction_type: self.transaction_type,
            amount_token: self.amount_token,
            amount_sol: self.amount_sol,
            price_per_token: self.price_per_token,
            token_image_uri: self.token_image_uri.clone(),
            market_cap: self.market_cap,
            usd_market_cap: self.usd_market_cap,
            timestamp: self.timestamp,
            seller: self.seller.clone(),
            buyer: self.buyer.clone(),
            dex_type: self.dex_type,
        }
    }
}

/// A user of the service, known by the address of their wallet.
#[derive(Debug, Clone)]
pub struct User {
    pub id: Option<u128>,
    pub wallet_address: String,
}

/// What happened to a tracked wallet.
#[derive(Debug, Clone, Copy, PartialEq, Eq, Structural)]
pub enum WalletStateChangeType {
    Added,
    Archived,
    Unarchived,
    Updated,
    Deleted,
}

/// A change of a tracked wallet, with the moment at which it was noted.
#[derive(Debug, Clone)]
pub struct WalletStateChange {
    pub wallet_address: String,
    pub change_type: WalletStateChangeType,
    pub timestamp: Timestamp,
    pub details: Option<serde_json::Value>,
}

impl WalletStateChange {
    /// A change without details, noted at `timestamp`.
    pub fn at(wallet_address: String, change_type: WalletStateChangeType, timestamp: Timestamp) -> (change: Self)
        ensures
            change.wallet_address == wallet_address,
            change.change_type == change_type,
            change.timestamp == timestamp,
            change.details is None,
    {
        WalletStateChange { wallet_address, change_type, timestamp, details: None }
    }

    /// A change without details, noted now.
    pub fn new(wallet_address: String, change_type: WalletStateChangeType) -> (change: Self)
        ensures
            change.wallet_address == wallet_address,
            change.change_type == change_type,
            change.details is None,
    {
        WalletStateChange::at(wallet_address, change_type, now_utc())
    }

    /// The same change, with `details` in place of what it had.
    pub fn with_details(self, details: serde_json::Value) -> (change: Self)
        ensures
            change.wallet_address == self.wallet_address,
            change.change_type == self.change_type,
            change.timestamp == self.timestamp,
            change.details == Some(details),
    {
        WalletStateChange {
            wallet_address: self.wallet_address,
            change_type: self.change_type,
            timestamp: self.timestamp,
            details: Some(details),
        }
    }
}

/// The envelope of a [`WalletStateChange`] on the bus.
#[derive(Debug, Clone)]
pub struct WalletStateNotification {
    pub data: WalletStateChange,
    pub type_: String,
}

/// A wallet whose trades are watched.
#[derive(Debug, Clone)]
pub struct TrackedWallet {
    pub id: Option<u128>,
    pub user_id: Option<u128>,
    pub wallet_address: String,
    pub is_active: bool,
    pub created_at: Option<Timestamp>,
    pub updated_at: Option<Timestamp>,
}

/// The rules under which the trades of one tracked wallet are copied.
#[derive(Debug, Clone)]
pub struct CopyTradeSettings {
    pub id: Option<u128>,
    pub user_id: Option<u128>,
    pub tracked_wallet_id: u128,
    pub is_enabled: bool,
    pub trade_amount_sol: Binary64,
    pub max_slippage: Binary64,
    pub max_open_positions: i32,
    pub allowed_tokens: Option<Vec<String>>,
    pub use_allowed_tokens_list: bool,
    pub allow_additional_buys: bool,
    pub match_sell_percentage: bool,
    pub min_sol_balance: Binary64,
    pub created_at: Option<Timestamp>,
    pub updated_at: Option<Timestamp>,
}

/// The bit pattern of 0.01, the amount and the balance of the default rules.
pub const DEFAULT_AMOUNT_BITS: u64 = 0x3F84_7AE1_47AE_147B;

/// The bit pattern of 0.1, the slippage of the default rules.
pub const DEFAULT_SLIPPAGE_BITS: u64 = 0x3FB9_9999_9999_999A;

impl CopyTradeSettings {
    /// What holds of rules that may be applied: the trade amount is above
    /// zero, the slippage lies between 0 and 100, and the number of open
    /// positions is not negative.
    pub open spec fn well_formed(self) -> bool {
        &&& (Binary64 { bits: crate::binary64::ZERO_BITS }).below(self.trade_amount_sol)
        &&& (Binary64 { bits: crate::binary64::ZERO_BITS }).at_most(self.max_slippage)
        &&& self.max_slippage.at_most(Binary64 { bits: crate::binary64::ONE_HUNDRED_BITS })
        &&& self.max_open_positions >= 0
    }

    /// Whether the rules may be applied.
    pub fn is_well_formed(&self) -> (answer: bool)
        ensures
            answer == self.well_formed(),
    {
        let zero = Binary64 { bits: crate::binary64::ZERO_BITS };
        let hundred = Binary64 { bits: crate::binary64::ONE_HUNDRED_BITS };
        zero.lt(self.trade_amount_sol) && zero.le(self.max_slippage) && self.max_slippage.le(
            hundred,
        ) && self.max_open_positions >= 0
    }
}

impl Default for CopyTradeSettings {
    fn default() -> (settings: Self)
        ensures
            settings.id is None,
            settings.user_id is None,
            settings.tracked_wallet_id == 0,
            !settings.is_enabled,
            settings.trade_amount_sol.bits == DEFAULT_AMOUNT_BITS,
            settings.max_slippage.bits == DEFAULT_SLIPPAGE_BITS,
            settings.max_open_positions == 1,
            settings.allowed_tokens is None,
            !settings.use_allowed_tokens_list,
            !settings.allow_additional_buys,
            !settings.match_sell_percentage,
            settings.min_sol_balance.bits == DEFAULT_AMOUNT_BITS,
            settings.created_at is None,
            settings.updated_at is None,
            settings.well_formed(),
    {
        CopyTradeSettings {
            id: None,
            user_id: None,
            tracked_wallet_id: 0,
            is_enabled: false,
            trade_amount_sol: Binary64 { bits: DEFAULT_AMOUNT_BITS },
            max_slippage: Binary64 { bits: DEFAULT_SLIPPAGE_BITS },
            max_open_positions: 1,
            allowed_tokens: None,
            use_allowed_tokens_list: false,
            allow_additional_buys: false,
            match_sell_percentage: false,
            min_sol_balance: Binary64 { bits: DEFAULT_AMOUNT_BITS },
            created_at: None,
            updated_at: None,
        }
    }
}

/// The record of one processed trade.
#[derive(Debug, Clone)]
pub struct TransactionLog {
    pub id: u128,
    pub user_id: String,
    pub tracked_wallet_id: Option<u128>,
    pub signature: String,
    pub transaction_type: String,
    pub token_address: String,
    pub amount: Binary64,
    pub price_sol: Binary64,
    pub timestamp: Timestamp,
}

/// The envelope of a trade that was copied.
#[derive(Debug, Clone)]
pub struct CopyTradeNotification {
    pub data: ClientTxInfo,
    pub type_: String,
}

/// The envelope of a trade that a tracked wallet made.
#[derive(Debug, Clone)]
pub struct TrackedWalletNotification {
    pub data: ClientTxInfo,
    pub type_: String,
}

/// The envelope of copy-trade rules that have arrived.
#[derive(Debug, Clone)]
pub struct SettingsUpdateNotification {
    pub data: CopyTradeSettings,
    pub type_: String,
}

/// The envelope of a [`TransactionLog`] on the bus.
#[derive(Debug, Clone)]
pub struct TransactionLoggedNotification {
    pub data: TransactionLog,
    pub type_: String,
}

/// The state of a wallet: its balance and the tokens it holds.
#[derive(Debug, Clone)]
pub struct WalletUpdate {
    pub balance: Binary64,
    pub tokens: Vec<TokenInfo>,
    pub address: String,
}

/// The envelope of a [`WalletUpdate`] on the bus.
#[derive(Debug, Clone)]
pub struct WalletUpdateNotification {
    pub data: WalletUpdate,
    pub type_: String,
}

/// What a transaction did with one token.
#[derive(Debug)]
pub struct TokenTransactionInfo {
    pub token_address: String,
    pub amount: Binary64,
    pub sol_amount: Binary64,
    pub price_per_token: Binary64,
    pub buyer: String,
    pub seller: String,
}

/// A request to buy a token for an amount of SOL.
#[derive(Debug, Clone)]
pub struct BuyRequest {
    pub token_address: String,
    pub sol_quantity: Binary64,
    pub slippage_tolerance: Binary64,
}

/// The outcome of a purchase.
#[derive(Debug, Clone)]
pub struct BuyResponse {
    pub success: bool,
    pub signature: String,
    pub solscan_tx_url: String,
    pub token_quantity: Binary64,
    pub sol_spent: Binary64,
    pub error: Option<String>,
}

/// A request to sell an amount of a token.
#[derive(Debug, Clone)]
pub struct SellRequest {
    pub token_address: String,
    pub token_quantity: Binary64,
    pub slippage_tolerance: Binary64,
}

/// The outcome of a sale.
#[derive(Debug, Clone)]
pub struct SellResponse {
    pub success: bool,
    pub signature: String,
    pub token_quantity: Binary64,
    pub sol_received: Binary64,
    pub solscan_tx_url: String,
    pub error: Option<String>,
}

/// What a purchase is expected to yield and allowed to cost.
#[derive(Debug, Clone)]
pub struct BuyTokenCalculations {
    pub token_out: u64,
    pub max_sol_cost: u64,
    pub price_per_token: Binary64,
    pub max_token_output: Binary64,
    pub min_token_output: Binary64,
}

/// One operation on the repository, and how it went.
#[derive(Debug, Clone)]
pub struct DatabaseOperationEvent {
    pub operation_type: String,
    pub table: String,
    pub success: bool,
    pub duration_ms: u64,
    pub error: Option<String>,
    pub timestamp: Timestamp,
}

/// An error with the circumstances it arose in.
#[derive(Debug, Clone)]
pub struct ErrorEvent {
    pub error_type: String,
    pub message: String,
    pub context: serde_json::Value,
    pub timestamp: Timestamp,
}

/// The envelope of a [`DatabaseOperationEvent`] on the bus.
#[derive(Debug, Clone)]
pub struct DatabaseNotification {
    pub data: DatabaseOperationEvent,
    pub type_: String,
}

/// The envelope of an [`ErrorEvent`] on the bus.
#[derive(Debug, Clone)]
pub struct ErrorNotification {
    pub data: ErrorEvent,
    pub type_: String,
}

/// A token in a wallet.
#[derive(Debug, Clone)]
pub struct TokenInfo {
    pub address: String,
    pub symbol: String,
    pub name: String,
    pub balance: String,
    pub metadata_uri: Option<String>,
    pub decimals: u8,
    pub market_cap: Binary64,
}

/// The links to the outside that the library reports on.
#[derive(Debug, Clone, Copy, PartialEq, Eq, Structural)]
pub enum ConnectionType {
    WebSocket,
    Grpc,
    Redis,
    Database,
}

/// The condition of a link.
#[derive(Debug, Clone, Copy, PartialEq, Eq, Structural)]
pub enum ConnectionStatus {
    Connected,
    Disconnected,
    Error,
    Reconnecting,
    Connecting,
}

/// A change in the condition of a link, with the moment at which it was noted.
#[derive(Debug, Clone)]
pub struct ConnectionStatusChange {
    pub connection_type: ConnectionType,
    pub status: ConnectionStatus,
    pub timestamp: Timestamp,
    pub details: Option<String>,
}

impl ConnectionStatusChange {
    /// A change without details, noted at `timestamp`.
    pub fn at(connection_type: ConnectionType, status: ConnectionStatus, timestamp: Timestamp) -> (change: Self)
        ensures
            change.connection_type == connection_type,
            change.status == status,
            change.timestamp == timestamp,
            change.details is None,
    {
        ConnectionStatusChange { connection_type, status, timestamp, details: None }
    }

    /// A change without details, noted now.
    pub fn new(connection_type: ConnectionType, status: ConnectionStatus) -> (change: Self)
        ensures
            change.connection_type == connection_type,
            change.status == status,
            change.details is None,
    {
        ConnectionStatusChange::at(connection_type, status, now_utc())
    }

    /// The same change, with `details` in place of what it had.
    pub fn with_details(self, details: String) -> (change: Self)
        ensures
            change.connection_type == self.connection_type,
            change.status == self.status,
            change.timestamp == self.timestamp,
            change.details == Some(details),
    {
        ConnectionStatusChange {
            connection_type: self.connection_type,
            status: self.status,
            timestamp: self.timestamp,
            details: Some(details),
        }
    }
}

/// The price of a token, as the price feed publishes it.
#[derive(Debug, Clone)]
pub struct PriceUpdate {
    pub token_address: String,
    pub price_sol: Binary64,
    pub price_usd: Option<Binary64>,
    pub market_cap: Binary64,
    pub timestamp: i64,
    pub dex_type: DexType,
    pub liquidity: Option<Binary64>,
    pub liquidity_usd: Option<Binary64>,
    pub pool_address: Option<String>,
    pub volume_24h: Option<Binary64>,
    pub volume_6h: Option<Binary64>,
    pub volume_1h: Option<Binary64>,
    pub volume_5m: Option<Binary64>,
}

/// The envelope of a [`PriceUpdate`] on the bus.
#[derive(Debug, Clone)]
pub struct PriceUpdateNotification {
    pub data: PriceUpdate,
    pub type_: String,
}

/// The envelope of a [`ConnectionStatusChange`] on the bus.
#[derive(Debug, Clone)]
pub struct ConnectionStatusNotification {
    pub data: ConnectionStatusChange,
    pub type_: String,
}

/// A trade that was submitted, by hand or as a copy.
#[derive(Debug, Clone)]
pub struct TradeExecution {
    pub id: u128,
    pub trade_type: String,
    pub dex_type: String,
    pub transaction_type: String,
    pub token_address: String,
    pub amount: Binary64,
    pub price_sol: Binary64,
    pub signature: String,
    pub timestamp: Timestamp,
    pub status: String,
    pub error: Option<String>,
}

/// The envelope of a [`TradeExecution`] on the bus.
#[derive(Debug, Clone)]
pub struct TradeExecutionNotification {
    pub data: TradeExecution,
    pub type_: String,
}

/// How far a submitted transaction has come.
#[derive(Debug, Clone, PartialEq)]
pub enum TransactionState {
    Submitted,
    Confirmed,
    Failed(String),
    Dropped,
}

/// A change in the state of a transaction, with the moment at which it was
/// noted.
#[derive(Debug, Clone)]
pub struct TransactionStateChange {
    pub signature: String,
    pub state: TransactionState,
    pub timestamp: Timestamp,
    pub details: Option<serde_json::Value>,
}

impl TransactionStateChange {
    /// A change without details, noted at `timestamp`.
    pub fn at(signature: String, state: TransactionState, timestamp: Timestamp) -> (change: Self)
        ensures
            change.signature == signature,
            change.state == state,
            change.timestamp == timestamp,
            change.details is None,
    {
        TransactionStateChange { signature, state, timestamp, details: None }
    }

    /// A change without details, noted now.
    pub fn new(signature: String, state: TransactionState) -> (change: Self)
        ensures
            change.signature == signature,
            change.state == state,
            change.details is None,
    {
        TransactionStateChange::at(signature, state, now_utc())
    }

    /// The same change, with `details` in place of what it had.
    pub fn with_details(self, details: serde_json::Value) -> (change: Self)
        ensures
            change.signature == self.signature,
            change.state == self.state,
            change.timestamp == self.timestamp,
            change.details == Some(details),
    {
        TransactionStateChange {
            signature: self.signature,
            state: self.state,
            timestamp: self.timestamp,
            details: Some(details),
        }
    }
}

/// The envelope of a [`TransactionStateChange`] on the bus.
#[derive(Debug, Clone)]
pub struct TransactionStateNotification {
    pub data: TransactionStateChange,
    pub type_: String,
}

/// A named list of tokens that a user watches.
#[derive(Debug, Clone)]
pub struct Watchlist {
    pub id: Option<u128>,
    pub user_id: Option<String>,
    pub name: String,
    pub description: Option<String>,
    pub created_at: Option<Timestamp>,
    pub updated_at: Option<Timestamp>,
}

/// One token on a watchlist.
#[derive(Debug, Clone)]
pub struct WatchlistToken {
    pub id: Option<u128>,
    pub watchlist_id: u128,
    pub token_address: String,
    pub added_at: Option<Timestamp>,
}

/// A watchlist together with the addresses of its tokens.
#[derive(Debug, Clone)]
pub struct WatchlistWithTokens {
    pub id: u128,
    pub name: String,
    pub description: Option<String>,
    pub tokens: Vec<String>,
    pub created_at: Timestamp,
    pub updated_at: Timestamp,
}

/// The price of SOL in dollars, from one source.
#[derive(Debug, Clone)]
pub struct SolPriceUpdate {
    pub price_usd: Binary64,
    pub source: PriceSource,
    pub timestamp: i64,
    pub confidence: Option<Binary64>,
}

/// Where a price of SOL comes from.
#[derive(Debug, Clone, Copy, PartialEq, Eq, Structural)]
pub enum PriceSource {
    Pyth,
    Raydium,
}

/// The envelope of a [`SolPriceUpdate`] on the bus.
#[derive(Debug, Clone)]
pub struct SolPriceUpdateNotification {
    pub data: SolPriceUpdate,
    pub type_: String,
}

/// A request of a client to be sent the prices of one token.
#[derive(Debug)]
pub struct SubscribeRequest {
    pub token_address: String,
    pub client_id: String,
}

} // verus!
