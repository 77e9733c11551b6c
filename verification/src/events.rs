//! The events that the parts of the system send one another.
//!
//! An event is one variant of a closed set. Each carries its payload in an
//! envelope whose tag names the kind once more, so that the event describes
//! itself on the wire.

use crate::models::{
    ClientTxInfo, ConnectionStatusChange, ConnectionStatusNotification, CopyTradeNotification,
    CopyTradeSettings, PriceUpdate, PriceUpdateNotification, SettingsUpdateNotification,
    SolPriceUpdate, SolPriceUpdateNotification, TrackedWalletNotification, TransactionLog,
    TransactionLoggedNotification, WalletStateChange, WalletStateNotification,
};
use vstd::prelude::*;
use vstd::string::StringExecFns;

verus! {

/// Something that happened, for every part of the system that listens.
#[derive(Debug, Clone)]
pub enum Event {
    SettingsUpdate(SettingsUpdateNotification),
    WalletStateChange(WalletStateNotification),
    TransactionLogged(TransactionLoggedNotification),
    CopyTradeExecuted(CopyTradeNotification),
    TrackedWalletTrade(TrackedWalletNotification),
    PriceUpdate(PriceUpdateNotification),
    SolPriceUpdate(SolPriceUpdateNotification),
    ConnectionStatus(ConnectionStatusNotification),
}

/// The kinds of event, without their payload.
#[derive(Debug, Clone, Copy, PartialEq, Eq, Structural)]
pub enum EventKind {
    SettingsUpdate,
    WalletStateChange,
    TransactionLogged,
    CopyTradeExecuted,
    TrackedWalletTrade,
    PriceUpdate,
    SolPriceUpdate,
    ConnectionStatus,
}

impl EventKind {
    /// The tag that the envelope of an event of this kind carries.
    pub open spec fn tag(self) -> Seq<char> {
        match self {
            EventKind::SettingsUpdate => "settings_updated"@,
            EventKind::WalletStateChange => "wallet_state_change"@,
            EventKind::TransactionLogged => "transaction_logged"@,
            EventKind::CopyTradeExecuted => "copy_trade_executed"@,
            EventKind::TrackedWalletTrade => "tracked_wallet_trade"@,
            EventKind::PriceUpdate => "price_update"@,
            EventKind::SolPriceUpdate => "sol_price_update"@,
            EventKind::ConnectionStatus => "connection_status_change"@,
        }
    }

    /// The tag as text.
    pub fn tag_text(self) -> (tag: String)
        ensures
            tag@ == self.tag(),
    {
        match self {
            EventKind::SettingsUpdate => String::from_str("settings_updated"),
            EventKind::WalletStateChange => String::from_str("wallet_state_change"),
            EventKind::TransactionLogged => String::from_str("transaction_logged"),
            EventKind::CopyTradeExecuted => String::from_str("copy_trade_executed"),
            EventKind::TrackedWalletTrade => String::from_str("tracked_wallet_trade"),
            EventKind::PriceUpdate => String::from_str("price_update"),
            EventKind::SolPriceUpdate => String::from_str("sol_price_update"),
            EventKind::ConnectionStatus => String::from_str("connection_status_change"),
        }
    }
}

impl Event {
    /// The kind of the event.
    pub open spec fn kind_of(self) -> EventKind {
        match self {
            Event::SettingsUpdate(_) => EventKind::SettingsUpdate,
            Event::WalletStateChange(_) => EventKind::WalletStateChange,
            Event::TransactionLogged(_) => EventKind::TransactionLogged,
            Event::CopyTradeExecuted(_) => EventKind::CopyTradeExecuted,
            Event::TrackedWalletTrade(_) => EventKind::TrackedWalletTrade,
            Event::PriceUpdate(_) => EventKind::PriceUpdate,
            Event::SolPriceUpdate(_) => EventKind::SolPriceUpdate,
            Event::ConnectionStatus(_) => EventKind::ConnectionStatus,
        }
    }

    /// The tag that the envelope carries.
    pub open spec fn envelope_tag(self) -> Seq<char> {
        match self {
            Event::SettingsUpdate(n) => n.type_@,
            Event::WalletStateChange(n) => n.type_@,
            Event::TransactionLogged(n) => n.type_@,
            Event::CopyTradeExecuted(n) => n.type_@,
            Event::TrackedWalletTrade(n) => n.type_@,
            Event::PriceUpdate(n) => n.type_@,
            Event::SolPriceUpdate(n) => n.type_@,
            Event::ConnectionStatus(n) => n.type_@,
        }
    }

    /// Whether the envelope carries the tag of the event's own kind. Every
    /// event that this library makes does.
    pub open spec fn well_formed(self) -> bool {
        self.envelope_tag() == self.kind_of().tag()
    }

    /// The kind of the event.
    pub fn kind(&self) -> (kind: EventKind)
        ensures
            kind == self.kind_of(),
    {
        match self {
            Event::SettingsUpdate(_) => EventKind::SettingsUpdate,
            Event::WalletStateChange(_) => EventKind::WalletStateChange,
            Event::TransactionLogged(_) => EventKind::TransactionLogged,
            Event::CopyTradeExecuted(_) => EventKind::CopyTradeExecuted,
            Event::TrackedWalletTrade(_) => EventKind::TrackedWalletTrade,
            Event::PriceUpdate(_) => EventKind::PriceUpdate,
            Event::SolPriceUpdate(_) => EventKind::SolPriceUpdate,
            Event::ConnectionStatus(_) => EventKind::ConnectionStatus,
        }
    }

    /// The event that new copy-trade rules have arrived.
    pub fn settings_updated(data: CopyTradeSettings) -> (event: Event)
        ensures
            event matches Event::SettingsUpdate(n) && n.data == data,
            event.well_formed(),
    {
        Event::SettingsUpdate(
            SettingsUpdateNotification { data, type_: EventKind::SettingsUpdate.tag_text() },
        )
    }

    /// The event that a tracked wallet has changed.
    pub fn wallet_state_changed(data: WalletStateChange) -> (event: Event)
        ensures
            event matches Event::WalletStateChange(n) && n.data == data,
            event.well_formed(),
    {
        Event::WalletStateChange(
            WalletStateNotification { data, type_: EventKind::WalletStateChange.tag_text() },
        )
    }

    /// The event that a trade has been processed and recorded.
    pub fn transaction_logged(data: TransactionLog) -> (event: Event)
        ensures
            event matches Event::TransactionLogged(n) && n.data == data,
            event.well_formed(),
    {
        Event::TransactionLogged(
            TransactionLoggedNotification { data, type_: EventKind::TransactionLogged.tag_text() },
        )
    }

    /// The event that a trade has been copied.
    pub fn copy_trade_executed(data: ClientTxInfo) -> (event: Event)
        ensures
            event matches Event::CopyTradeExecuted(n) && n.data == data,
            event.well_formed(),
    {
        Event::CopyTradeExecuted(
            CopyTradeNotification { data, type_: EventKind::CopyTradeExecuted.tag_text() },
        )
    }

    /// The event that a tracked wallet has traded.
    pub fn tracked_wallet_trade(data: ClientTxInfo) -> (event: Event)
        ensures
            event matches Event::TrackedWalletTrade(n) && n.data == data,
            event.well_formed(),
    {
        Event::TrackedWalletTrade(
            TrackedWalletNotification { data, type_: EventKind::TrackedWalletTrade.tag_text() },
        )
    }

    /// The event that the price of a token has changed.
    pub fn price_updated(data: PriceUpdate) -> (event: Event)
        ensures
            event matches Event::PriceUpdate(n) && n.data == data,
            event.well_formed(),
    {
        Event::PriceUpdate(
            PriceUpdateNotification { data, type_: EventKind::PriceUpdate.tag_text() },
        )
    }

    /// The event that the price of SOL has changed.
    pub fn sol_price_updated(data: SolPriceUpdate) -> (event: Event)
        ensures
            event matches Event::SolPriceUpdate(n) && n.data == data,
            event.well_formed(),
    {
        Event::SolPriceUpdate(
            SolPriceUpdateNotification { data, type_: EventKind::SolPriceUpdate.tag_text() },
        )
    }

    /// The event that the condition of a link has changed.
    pub fn connection_status_changed(data: ConnectionStatusChange) -> (event: Event)
        ensures
            event matches Event::ConnectionStatus(n) && n.data == data,
            event.well_formed(),
    {
        Event::ConnectionStatus(
            ConnectionStatusNotification { data, type_: EventKind::ConnectionStatus.tag_text() },
        )
    }
}

} // verus!
