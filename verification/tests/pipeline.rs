use trading_core::ambient::Timestamp;
use trading_core::binary64::Binary64;
use trading_core::error::AppError;
use trading_core::events::Event;
use trading_core::models::{
    ClientTxInfo, CopyTradeSettings, DexType, TrackedWallet, TransactionType, WalletStateChange,
    WalletStateChangeType,
};
use trading_core::orchestrator::{TradeAction, TradeEvent, TradeJob};
use trading_core::pipeline::{
    apply_settings_update, apply_wallet_change, find_at_address, find_for_wallet, pipeline_step,
    supervisor_step, update_wallets, upsert_settings,
    PipelineAction, PipelineEvent, SupervisorAction, SupervisorEvent, IDLE_TICK_MS,
    SHUTDOWN_PAUSE_MS, SUPERVISOR_TICK_MS,
};

fn number(value: f64) -> Binary64 {
    Binary64::from_bits(value.to_bits())
}

fn queued(signature: &str) -> ClientTxInfo {
    ClientTxInfo {
        signature: signature.to_string(),
        token_address: "Token111".to_string(),
        token_name: "Token".to_string(),
        token_symbol: "TKN".to_string(),
        transaction_type: TransactionType::Buy,
        amount_token: number(10.0),
        amount_sol: number(1.0),
        price_per_token: number(0.1),
        token_image_uri: String::new(),
        market_cap: number(0.0),
        usd_market_cap: number(0.0),
        timestamp: 0,
        seller: String::new(),
        buyer: String::new(),
        dex_type: DexType::Unknown,
    }
}

fn rules(wallet: u128, positions: i32) -> CopyTradeSettings {
    let mut settings = CopyTradeSettings::default();
    settings.tracked_wallet_id = wallet;
    settings.max_open_positions = positions;
    settings
}

fn shape(list: &[CopyTradeSettings]) -> Vec<(u128, i32)> {
    list.iter().map(|s| (s.tracked_wallet_id, s.max_open_positions)).collect()
}

#[test]
fn the_intervals_of_the_loops_are_as_documented() {
    assert_eq!(IDLE_TICK_MS, 100);
    assert_eq!(SUPERVISOR_TICK_MS, 1_000);
    assert_eq!(SHUTDOWN_PAUSE_MS, 1_000);
}

#[test]
fn the_pipeline_waits_for_trades_until_it_is_stopped() {
    for event in [PipelineEvent::Started, PipelineEvent::IdleTick, PipelineEvent::Processed(Ok(()))] {
        let output = pipeline_step(false, event);
        assert!(matches!(output.action, PipelineAction::Wait { idle_ms: 100 }));
        assert!(output.report.is_none());
    }
    for event in [PipelineEvent::Started, PipelineEvent::IdleTick, PipelineEvent::Processed(Ok(()))] {
        let output = pipeline_step(true, event);
        assert!(matches!(output.action, PipelineAction::Stop));
        assert!(output.report.is_none());
    }
}

#[test]
fn a_trade_off_the_queue_is_processed_even_during_a_stop() {
    for stop in [false, true] {
        let output = pipeline_step(stop, PipelineEvent::Received(queued("sig")));
        match output.action {
            PipelineAction::Process(trade) => assert_eq!(trade.signature, "sig"),
            other => panic!("expected the trade to be processed, got {:?}", other),
        }
        assert!(output.report.is_none());
    }
}

#[test]
fn a_failed_trade_is_made_known_and_holds_up_nothing() {
    let failure = AppError::MessageProcessingError("Copy trade failed: boom".to_string());
    let output = pipeline_step(false, PipelineEvent::Processed(Err(failure)));
    assert!(matches!(output.action, PipelineAction::Wait { idle_ms: 100 }));
    assert_eq!(
        output.report.as_deref(),
        Some("Error processing transaction: Message processing error: Copy trade failed: boom")
    );
    let stopped = pipeline_step(true, PipelineEvent::Processed(Err(AppError::TaskError("t".to_string()))));
    assert!(matches!(stopped.action, PipelineAction::Stop));
    assert_eq!(stopped.report.as_deref(), Some("Error processing transaction: Task error: t"));
}

#[test]
fn after_a_failed_execution_the_next_trade_is_processed() {
    let settings = Some(vec![{
        let mut s = rules(1, 1);
        s.is_enabled = true;
        s
    }]);
    let mut queue = vec![queued("first"), queued("second")];
    queue.reverse();
    let mut processed = Vec::new();
    let mut reports = Vec::new();
    let mut output = pipeline_step(false, PipelineEvent::Started);
    let mut rounds = 0;
    loop {
        rounds += 1;
        assert!(rounds < 20);
        reports.extend(output.report.take());
        match output.action {
            PipelineAction::Stop => break,
            PipelineAction::Wait { .. } => {
                output = match queue.pop() {
                    Some(trade) => pipeline_step(false, PipelineEvent::Received(trade)),
                    None => pipeline_step(true, PipelineEvent::IdleTick),
                };
            }
            PipelineAction::Process(trade) => {
                let signature = trade.signature.clone();
                let (mut job, _) = TradeJob::begin(trade, "User1".to_string(), &settings);
                job.step(TradeEvent::WalletInfoFetched(Ok(())));
                job.step(TradeEvent::Decided(Ok(true)));
                let completion = match job.step(TradeEvent::Executed(Err("rejected".to_string()))) {
                    TradeAction::Finish(completion) => completion,
                    other => panic!("expected the job to finish, got {:?}", other),
                };
                assert_eq!(completion.events.len(), 2);
                processed.push(signature);
                output = pipeline_step(false, PipelineEvent::Processed(completion.result));
            }
        }
    }
    assert_eq!(processed, vec!["first".to_string(), "second".to_string()]);
    assert_eq!(reports.len(), 2);
    assert!(reports[0].starts_with("Error processing transaction: Message processing error: Copy trade failed: "));
}

#[test]
fn new_rules_replace_the_first_for_their_wallet() {
    let mut list = vec![rules(1, 1), rules(2, 2), rules(1, 3)];
    upsert_settings(&mut list, rules(1, 9));
    assert_eq!(shape(&list), vec![(1, 9), (2, 2), (1, 3)]);
    upsert_settings(&mut list, rules(2, 8));
    assert_eq!(shape(&list), vec![(1, 9), (2, 8), (1, 3)]);
}

#[test]
fn new_rules_for_a_new_wallet_are_added_at_the_end() {
    let mut list = vec![rules(1, 1), rules(2, 2)];
    upsert_settings(&mut list, rules(3, 3));
    assert_eq!(shape(&list), vec![(1, 1), (2, 2), (3, 3)]);
    let mut empty: Vec<CopyTradeSettings> = Vec::new();
    upsert_settings(&mut empty, rules(5, 5));
    assert_eq!(shape(&empty), vec![(5, 5)]);
}

#[test]
fn taking_rules_in_twice_is_taking_them_in_once() {
    let mut once = vec![rules(1, 1), rules(2, 2)];
    upsert_settings(&mut once, rules(4, 4));
    let mut twice = vec![rules(1, 1), rules(2, 2)];
    upsert_settings(&mut twice, rules(4, 4));
    upsert_settings(&mut twice, rules(4, 4));
    assert_eq!(shape(&once), shape(&twice));
}

#[test]
fn the_first_rules_for_a_wallet_are_found() {
    let list = vec![rules(1, 1), rules(2, 2), rules(1, 3)];
    assert_eq!(find_for_wallet(&list, 1), 0);
    assert_eq!(find_for_wallet(&list, 2), 1);
    assert_eq!(find_for_wallet(&list, 3), 3);
    assert_eq!(find_for_wallet(&Vec::new(), 3), 0);
}

#[test]
fn a_missing_list_of_rules_stays_missing() {
    let mut missing: Option<Vec<CopyTradeSettings>> = None;
    apply_settings_update(&mut missing, rules(1, 1));
    assert!(missing.is_none());
    let mut present = Some(vec![rules(1, 1)]);
    apply_settings_update(&mut present, rules(1, 2));
    apply_settings_update(&mut present, rules(2, 2));
    assert_eq!(shape(present.as_ref().unwrap()), vec![(1, 2), (2, 2)]);
}

#[test]
fn the_supervisor_ends_the_session_on_a_stop_that_got_through() {
    let mut settings = Some(vec![rules(1, 1)]);
    let step = |settings: &mut Option<Vec<CopyTradeSettings>>, delivered, stop| {
        supervisor_step(settings, SupervisorEvent::StopChanged { delivered, stop })
    };
    assert_eq!(step(&mut settings, true, true), SupervisorAction::Shutdown);
    assert_eq!(step(&mut settings, true, false), SupervisorAction::Continue);
    assert_eq!(step(&mut settings, false, true), SupervisorAction::Continue);
    assert_eq!(step(&mut settings, false, false), SupervisorAction::Continue);
    assert_eq!(shape(settings.as_ref().unwrap()), vec![(1, 1)]);
}

#[test]
fn the_supervisor_ends_the_session_when_a_task_has_ended() {
    let mut settings = None;
    let tick = |settings: &mut Option<Vec<CopyTradeSettings>>, pipeline_finished, monitor_finished| {
        supervisor_step(settings, SupervisorEvent::Tick { pipeline_finished, monitor_finished })
    };
    assert_eq!(tick(&mut settings, false, false), SupervisorAction::Continue);
    assert_eq!(tick(&mut settings, true, false), SupervisorAction::Shutdown);
    assert_eq!(tick(&mut settings, false, true), SupervisorAction::Shutdown);
    assert_eq!(tick(&mut settings, true, true), SupervisorAction::Shutdown);
}

#[test]
fn the_supervisor_takes_new_rules_in_and_ignores_other_events() {
    let mut settings = Some(vec![rules(1, 1)]);
    let action = supervisor_step(&mut settings, SupervisorEvent::Bus(Event::settings_updated(rules(1, 5))));
    assert_eq!(action, SupervisorAction::Continue);
    assert_eq!(shape(settings.as_ref().unwrap()), vec![(1, 5)]);
    let action = supervisor_step(&mut settings, SupervisorEvent::Bus(Event::settings_updated(rules(2, 6))));
    assert_eq!(action, SupervisorAction::Continue);
    assert_eq!(shape(settings.as_ref().unwrap()), vec![(1, 5), (2, 6)]);
    let change = WalletStateChange::at(
        "W".to_string(),
        WalletStateChangeType::Added,
        Timestamp { secs: 0, nanos: 0 },
    );
    let action = supervisor_step(&mut settings, SupervisorEvent::Bus(Event::wallet_state_changed(change)));
    assert_eq!(action, SupervisorAction::Continue);
    let action = supervisor_step(&mut settings, SupervisorEvent::Bus(Event::tracked_wallet_trade(queued("s"))));
    assert_eq!(action, SupervisorAction::Continue);
    assert_eq!(shape(settings.as_ref().unwrap()), vec![(1, 5), (2, 6)]);
}

fn watched(address: &str, id: u128, active: bool) -> TrackedWallet {
    TrackedWallet {
        id: Some(id),
        user_id: Some(77),
        wallet_address: address.to_string(),
        is_active: active,
        created_at: Some(Timestamp { secs: 1, nanos: 2 }),
        updated_at: None,
    }
}

fn change(address: &str, change_type: WalletStateChangeType) -> WalletStateChange {
    WalletStateChange::at(address.to_string(), change_type, Timestamp { secs: 0, nanos: 0 })
}

fn addresses(list: &[TrackedWallet]) -> Vec<(String, bool, Option<u128>)> {
    list.iter().map(|w| (w.wallet_address.clone(), w.is_active, w.id)).collect()
}

fn entry(address: &str, active: bool, id: Option<u128>) -> (String, bool, Option<u128>) {
    (address.to_string(), active, id)
}

#[test]
fn an_added_wallet_is_in_the_list_and_active() {
    let mut list = vec![watched("W1", 1, true)];
    update_wallets(&mut list, &change("W2", WalletStateChangeType::Added));
    assert_eq!(addresses(&list), vec![entry("W1", true, Some(1)), entry("W2", true, None)]);
    update_wallets(&mut list, &change("W2", WalletStateChangeType::Added));
    assert_eq!(addresses(&list), vec![entry("W1", true, Some(1)), entry("W2", true, None)]);
    assert_eq!(list[1].user_id, None);
    assert_eq!(list[1].created_at, None);
}

#[test]
fn archiving_and_unarchiving_mark_the_wallet_in_place() {
    let mut list = vec![watched("W1", 1, true), watched("W2", 2, true)];
    update_wallets(&mut list, &change("W1", WalletStateChangeType::Archived));
    assert_eq!(addresses(&list), vec![entry("W1", false, Some(1)), entry("W2", true, Some(2))]);
    assert_eq!(list[0].user_id, Some(77));
    assert_eq!(list[0].created_at, Some(Timestamp { secs: 1, nanos: 2 }));
    update_wallets(&mut list, &change("W1", WalletStateChangeType::Unarchived));
    assert_eq!(addresses(&list), vec![entry("W1", true, Some(1)), entry("W2", true, Some(2))]);
    update_wallets(&mut list, &change("W3", WalletStateChangeType::Archived));
    assert_eq!(
        addresses(&list),
        vec![entry("W1", true, Some(1)), entry("W2", true, Some(2)), entry("W3", false, None)]
    );
}

#[test]
fn a_deleted_wallet_leaves_the_list() {
    let mut list = vec![watched("W1", 1, true), watched("W2", 2, false), watched("W3", 3, true)];
    update_wallets(&mut list, &change("W2", WalletStateChangeType::Deleted));
    assert_eq!(addresses(&list), vec![entry("W1", true, Some(1)), entry("W3", true, Some(3))]);
    update_wallets(&mut list, &change("W2", WalletStateChangeType::Deleted));
    assert_eq!(addresses(&list), vec![entry("W1", true, Some(1)), entry("W3", true, Some(3))]);
    update_wallets(&mut list, &change("W1", WalletStateChangeType::Deleted));
    update_wallets(&mut list, &change("W3", WalletStateChangeType::Deleted));
    assert!(list.is_empty());
}

#[test]
fn another_change_leaves_the_wallets_as_they_are() {
    let mut list = vec![watched("W1", 1, false)];
    update_wallets(&mut list, &change("W1", WalletStateChangeType::Updated));
    update_wallets(&mut list, &change("W9", WalletStateChangeType::Updated));
    assert_eq!(addresses(&list), vec![entry("W1", false, Some(1))]);
}

#[test]
fn the_first_wallet_at_an_address_is_found() {
    let list = vec![watched("W1", 1, true), watched("W2", 2, true), watched("W1", 3, true)];
    assert_eq!(find_at_address(&list, &"W1".to_string()), 0);
    assert_eq!(find_at_address(&list, &"W2".to_string()), 1);
    assert_eq!(find_at_address(&list, &"w2".to_string()), 3);
    assert_eq!(find_at_address(&Vec::new(), &"W1".to_string()), 0);
}

#[test]
fn a_missing_list_of_wallets_stays_missing() {
    let mut missing: Option<Vec<TrackedWallet>> = None;
    apply_wallet_change(&mut missing, &change("W1", WalletStateChangeType::Added));
    assert!(missing.is_none());
    let mut present = Some(Vec::new());
    apply_wallet_change(&mut present, &change("W1", WalletStateChangeType::Added));
    apply_wallet_change(&mut present, &change("W1", WalletStateChangeType::Archived));
    assert_eq!(addresses(present.as_ref().unwrap()), vec![entry("W1", false, None)]);
}
