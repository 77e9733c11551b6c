use trading_core::ambient::Timestamp;
use trading_core::binary64::Binary64;
use trading_core::error::AppError;
use trading_core::events::{Event, EventKind};
use trading_core::models::{
    ClientTxInfo, ConnectionStatus, ConnectionStatusChange, ConnectionType, CopyTradeSettings,
    DexType, PriceSource, PriceUpdate, SolPriceUpdate, SubscribeRequest, TransactionLog,
    TransactionState, TransactionStateChange, TransactionType, WalletStateChange,
    WalletStateChangeType,
};
use trading_core::price_calculator::PriceCalculator;

fn number(value: f64) -> Binary64 {
    Binary64::from_bits(value.to_bits())
}

fn sample_numbers() -> Vec<f64> {
    vec![
        0.0,
        -0.0,
        1.0,
        -1.0,
        0.01,
        0.1,
        99.999,
        100.0,
        100.00000000000001,
        999.9999999999999,
        1000.0,
        1000.0000000000001,
        -1000.0,
        5e-324,
        -5e-324,
        f64::MIN_POSITIVE,
        f64::MAX,
        f64::MIN,
        f64::INFINITY,
        f64::NEG_INFINITY,
        f64::NAN,
        -f64::NAN,
        f64::from_bits(0x7FF0_0000_0000_0001),
        f64::from_bits(0xFFFF_FFFF_FFFF_FFFF),
        1e300,
        -1e-300,
    ]
}

fn trade() -> ClientTxInfo {
    ClientTxInfo {
        signature: "5sig".to_string(),
        token_address: "Token111".to_string(),
        token_name: "Token".to_string(),
        token_symbol: "TKN".to_string(),
        transaction_type: TransactionType::Buy,
        amount_token: number(1500.5),
        amount_sol: number(0.25),
        price_per_token: number(0.000166),
        token_image_uri: "https://img.example/t.png".to_string(),
        market_cap: number(12.5),
        usd_market_cap: number(2500.0),
        timestamp: 1_700_000_000,
        seller: "Seller1".to_string(),
        buyer: "Buyer1".to_string(),
        dex_type: DexType::PumpFun,
    }
}

#[test]
fn comparisons_agree_with_hardware_numbers() {
    for a in sample_numbers() {
        assert_eq!(number(a).to_bits(), a.to_bits());
        assert_eq!(number(a).is_nan(), a.is_nan(), "is_nan {:?}", a);
        for b in sample_numbers() {
            assert_eq!(number(a).lt(number(b)), a < b, "{:?} < {:?}", a, b);
            assert_eq!(number(a).le(number(b)), a <= b, "{:?} <= {:?}", a, b);
            assert_eq!(number(a).gt(number(b)), a > b, "{:?} > {:?}", a, b);
            assert_eq!(number(a).ge(number(b)), a >= b, "{:?} >= {:?}", a, b);
        }
    }
}

#[test]
fn bit_patterns_of_the_bounds_are_those_of_the_numbers() {
    assert_eq!(trading_core::binary64::ZERO_BITS, 0.0f64.to_bits());
    assert_eq!(trading_core::binary64::ONE_HUNDRED_BITS, 100.0f64.to_bits());
    assert_eq!(trading_core::binary64::ONE_THOUSAND_BITS, 1000.0f64.to_bits());
    assert_eq!(trading_core::binary64::SIGN_BIT, (-0.0f64).to_bits());
    assert_eq!(trading_core::binary64::INFINITY_MAGNITUDE, f64::INFINITY.to_bits());
    assert_eq!(trading_core::models::DEFAULT_AMOUNT_BITS, 0.01f64.to_bits());
    assert_eq!(trading_core::models::DEFAULT_SLIPPAGE_BITS, 0.1f64.to_bits());
}

#[test]
fn validate_price_data_refuses_a_negative_price() {
    match PriceCalculator::validate_price_data(number(-1.0), 1, 1) {
        Err(AppError::InvalidPrice(why)) => assert_eq!(why, "Negative price"),
        other => panic!("expected an invalid price, got {:?}", other),
    }
}

#[test]
fn validate_price_data_refuses_a_zero_balance() {
    match PriceCalculator::validate_price_data(number(1.0), 0, 1) {
        Err(AppError::InvalidPrice(why)) => assert_eq!(why, "Zero balance detected"),
        other => panic!("expected an invalid price, got {:?}", other),
    }
    assert!(PriceCalculator::validate_price_data(number(1.0), 1, 0).is_err());
    assert!(PriceCalculator::validate_price_data(number(1.0), 0, 0).is_err());
}

#[test]
fn validate_price_data_accepts_sound_data() {
    assert!(PriceCalculator::validate_price_data(number(1.0), 1, 1).is_ok());
    assert!(PriceCalculator::validate_price_data(number(0.0), 1, 1).is_ok());
    assert!(PriceCalculator::validate_price_data(number(-0.0), 1, 1).is_ok());
    assert!(PriceCalculator::validate_price_data(number(1000.0), u64::MAX, u64::MAX).is_ok());
    assert!(PriceCalculator::validate_price_data(number(f64::NAN), 1, 1).is_ok());
}

#[test]
fn validate_price_data_refuses_a_price_above_one_thousand() {
    for price in [1000.0000000000001, 1e9, f64::INFINITY] {
        match PriceCalculator::validate_price_data(number(price), 1, 1) {
            Err(AppError::InvalidPrice(why)) => assert_eq!(why, "Unreasonably high price"),
            other => panic!("expected an invalid price, got {:?}", other),
        }
    }
}

#[test]
fn validate_price_data_names_the_first_fault() {
    match PriceCalculator::validate_price_data(number(-5.0), 0, 0) {
        Err(AppError::InvalidPrice(why)) => assert_eq!(why, "Negative price"),
        other => panic!("expected an invalid price, got {:?}", other),
    }
    match PriceCalculator::validate_price_data(number(5000.0), 0, 0) {
        Err(AppError::InvalidPrice(why)) => assert_eq!(why, "Unreasonably high price"),
        other => panic!("expected an invalid price, got {:?}", other),
    }
}

#[test]
fn default_settings_are_switched_off_and_well_formed() {
    let settings = CopyTradeSettings::default();
    assert!(settings.id.is_none());
    assert!(settings.user_id.is_none());
    assert_eq!(settings.tracked_wallet_id, 0);
    assert!(!settings.is_enabled);
    assert_eq!(f64::from_bits(settings.trade_amount_sol.to_bits()), 0.01);
    assert_eq!(f64::from_bits(settings.max_slippage.to_bits()), 0.1);
    assert_eq!(settings.max_open_positions, 1);
    assert!(settings.allowed_tokens.is_none());
    assert!(!settings.use_allowed_tokens_list);
    assert!(!settings.allow_additional_buys);
    assert!(!settings.match_sell_percentage);
    assert_eq!(f64::from_bits(settings.min_sol_balance.to_bits()), 0.01);
    assert!(settings.created_at.is_none());
    assert!(settings.updated_at.is_none());
    assert!(settings.is_well_formed());
}

#[test]
fn settings_outside_their_bounds_are_not_well_formed() {
    let sound = |amount: f64, slippage: f64, positions: i32| {
        let mut settings = CopyTradeSettings::default();
        settings.trade_amount_sol = number(amount);
        settings.max_slippage = number(slippage);
        settings.max_open_positions = positions;
        settings.is_well_formed()
    };
    assert!(sound(0.5, 0.0, 0));
    assert!(sound(0.5, 100.0, 7));
    assert!(sound(5e-324, 50.0, i32::MAX));
    assert!(!sound(0.0, 50.0, 1));
    assert!(!sound(-0.5, 50.0, 1));
    assert!(!sound(f64::NAN, 50.0, 1));
    assert!(!sound(0.5, -0.000001, 1));
    assert!(!sound(0.5, 100.00000000000001, 1));
    assert!(!sound(0.5, f64::NAN, 1));
    assert!(!sound(0.5, 50.0, -1));
    assert!(sound(0.5, -0.0, 1));
}

#[test]
fn transaction_types_have_their_names() {
    assert_eq!(TransactionType::Buy.name(), "Buy");
    assert_eq!(TransactionType::Sell.name(), "Sell");
    assert_eq!(TransactionType::Transfer.name(), "Transfer");
    assert_eq!(TransactionType::Unknown.name(), "Unknown");
}

#[test]
fn a_cloned_trade_equals_the_trade() {
    let first = trade();
    let second = first.clone();
    assert_eq!(format!("{:?}", second), format!("{:?}", first));
}

#[test]
fn a_cloned_change_keeps_its_details() {
    let details: serde_json::Value =
        serde_json::from_str(r#"{"nested":{"list":[1,2.5,"three",null,true]}}"#).unwrap();
    let change = WalletStateChange::at(
        "Wallet1".to_string(),
        WalletStateChangeType::Updated,
        Timestamp { secs: 5, nanos: 6 },
    )
    .with_details(details.clone());
    let event = Event::wallet_state_changed(change);
    match event.clone() {
        Event::WalletStateChange(notification) => {
            assert_eq!(notification.data.details, Some(details));
            assert_eq!(notification.data.wallet_address, "Wallet1");
            assert_eq!(notification.type_, "wallet_state_change");
        }
        other => panic!("expected a wallet change, got {:?}", other),
    }
}

#[test]
fn a_wallet_change_is_built_step_by_step() {
    let moment = Timestamp { secs: 1_700_000_000, nanos: 5 };
    let change = WalletStateChange::at("Wallet1".to_string(), WalletStateChangeType::Archived, moment);
    assert_eq!(change.wallet_address, "Wallet1");
    assert_eq!(change.change_type, WalletStateChangeType::Archived);
    assert_eq!(change.timestamp, moment);
    assert!(change.details.is_none());
    let details: serde_json::Value = serde_json::from_str(r#"{"by":"admin"}"#).unwrap();
    let detailed = change.with_details(details.clone());
    assert_eq!(detailed.details, Some(details));
    assert_eq!(detailed.wallet_address, "Wallet1");
    assert_eq!(detailed.timestamp, moment);
}

#[test]
fn a_change_made_now_carries_a_recent_moment() {
    let before = chrono::Utc::now().timestamp();
    let wallet = WalletStateChange::new("Wallet1".to_string(), WalletStateChangeType::Added);
    let link = ConnectionStatusChange::new(ConnectionType::Redis, ConnectionStatus::Connected);
    let sent = TransactionStateChange::new("sig".to_string(), TransactionState::Submitted);
    let after = chrono::Utc::now().timestamp();
    for secs in [wallet.timestamp.secs, link.timestamp.secs, sent.timestamp.secs] {
        assert!(before <= secs && secs <= after);
    }
    assert!(wallet.details.is_none());
    assert_eq!(wallet.change_type, WalletStateChangeType::Added);
    assert!(link.details.is_none());
    assert_eq!(link.connection_type, ConnectionType::Redis);
    assert_eq!(link.status, ConnectionStatus::Connected);
    assert_eq!(sent.signature, "sig");
    assert_eq!(sent.state, TransactionState::Submitted);
    assert!(sent.details.is_none());
}

#[test]
fn status_and_transaction_changes_take_details() {
    let moment = Timestamp { secs: 10, nanos: 0 };
    let link = ConnectionStatusChange::at(ConnectionType::WebSocket, ConnectionStatus::Error, moment)
        .with_details("refused".to_string());
    assert_eq!(link.details.as_deref(), Some("refused"));
    assert_eq!(link.status, ConnectionStatus::Error);
    assert_eq!(link.timestamp, moment);
    let doc: serde_json::Value = serde_json::from_str("[1,2]").unwrap();
    let failed = TransactionStateChange::at(
        "sig".to_string(),
        TransactionState::Failed("out of funds".to_string()),
        moment,
    )
    .with_details(doc.clone());
    assert_eq!(failed.state, TransactionState::Failed("out of funds".to_string()));
    assert_eq!(failed.details, Some(doc));
    assert_eq!(failed.timestamp, moment);
}

#[test]
fn every_event_carries_the_tag_of_its_kind() {
    let moment = Timestamp { secs: 1, nanos: 2 };
    let log = TransactionLog {
        id: 7,
        user_id: "user".to_string(),
        tracked_wallet_id: None,
        signature: "sig".to_string(),
        transaction_type: "Buy".to_string(),
        token_address: "Token111".to_string(),
        amount: number(1.0),
        price_sol: number(2.0),
        timestamp: moment,
    };
    let price = PriceUpdate {
        token_address: "Token111".to_string(),
        price_sol: number(0.5),
        price_usd: None,
        market_cap: number(0.0),
        timestamp: 3,
        dex_type: DexType::Raydium,
        liquidity: None,
        liquidity_usd: None,
        pool_address: None,
        volume_24h: None,
        volume_6h: None,
        volume_1h: None,
        volume_5m: None,
    };
    let sol = SolPriceUpdate { price_usd: number(150.0), source: PriceSource::Pyth, timestamp: 4, confidence: None };
    let events = vec![
        (Event::settings_updated(CopyTradeSettings::default()), EventKind::SettingsUpdate, "settings_updated"),
        (
            Event::wallet_state_changed(WalletStateChange::at(
                "w".to_string(),
                WalletStateChangeType::Deleted,
                moment,
            )),
            EventKind::WalletStateChange,
            "wallet_state_change",
        ),
        (Event::transaction_logged(log), EventKind::TransactionLogged, "transaction_logged"),
        (Event::copy_trade_executed(trade()), EventKind::CopyTradeExecuted, "copy_trade_executed"),
        (Event::tracked_wallet_trade(trade()), EventKind::TrackedWalletTrade, "tracked_wallet_trade"),
        (Event::price_updated(price), EventKind::PriceUpdate, "price_update"),
        (Event::sol_price_updated(sol), EventKind::SolPriceUpdate, "sol_price_update"),
        (
            Event::connection_status_changed(ConnectionStatusChange::at(
                ConnectionType::Database,
                ConnectionStatus::Reconnecting,
                moment,
            )),
            EventKind::ConnectionStatus,
            "connection_status_change",
        ),
    ];
    for (event, kind, tag) in events {
        assert_eq!(event.kind(), kind);
        assert_eq!(kind.tag_text(), tag);
        let carried = match &event {
            Event::SettingsUpdate(n) => n.type_.clone(),
            Event::WalletStateChange(n) => n.type_.clone(),
            Event::TransactionLogged(n) => n.type_.clone(),
            Event::CopyTradeExecuted(n) => n.type_.clone(),
            Event::TrackedWalletTrade(n) => n.type_.clone(),
            Event::PriceUpdate(n) => n.type_.clone(),
            Event::SolPriceUpdate(n) => n.type_.clone(),
            Event::ConnectionStatus(n) => n.type_.clone(),
        };
        assert_eq!(carried, tag);
    }
}

#[test]
fn a_subscribe_request_names_token_and_client() {
    let request = SubscribeRequest { token_address: "Token111".to_string(), client_id: "c1".to_string() };
    assert_eq!(request.token_address, "Token111");
    assert_eq!(request.client_id, "c1");
}
