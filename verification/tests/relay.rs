use trading_core::ambient::Timestamp;
use trading_core::error::AppError;
use trading_core::events::Event;
use trading_core::models::{ConnectionStatus, TrackedWallet, WalletStateChangeType};
use trading_core::relay::{
    change_type_for, connection_opened, dispatch_push, dispatch_push_at, forwarding_step,
    health_from_reply, keep_alive_step, read_wallet_update, resp3_url, route_message,
    settings_delete_payload, sol_price_payload, topic_of, tracked_wallet_update_payload,
    update_topics, wallet_address_update_payload, DropReason, ForwardStep, KeepAliveStep,
    Publication, PublishKind, PublishStep, PushAction, PushKind, RelayTopic, SetupStage,
    MAX_RETRIES, RECONNECT_DELAY_MS,
};

fn bulk(text: &str) -> redis::Value {
    redis::Value::BulkString(text.as_bytes().to_vec())
}

fn moment() -> Timestamp {
    Timestamp { secs: 1_700_000_000, nanos: 42 }
}

fn wallet(id: Option<u128>, active: bool) -> TrackedWallet {
    TrackedWallet {
        id,
        user_id: None,
        wallet_address: "Wallet111".to_string(),
        is_active: active,
        created_at: None,
        updated_at: None,
    }
}

#[test]
fn resp3_is_asked_for_once() {
    assert_eq!(resp3_url("redis://localhost"), "redis://localhost?protocol=resp3");
    assert_eq!(resp3_url("redis://localhost/?db=1"), "redis://localhost/?db=1&protocol=resp3");
    assert_eq!(resp3_url("redis://localhost/?protocol=resp3"), "redis://localhost/?protocol=resp3");
    assert_eq!(
        resp3_url("redis://localhost/?protocol=resp3&db=1"),
        "redis://localhost/?protocol=resp3&db=1"
    );
    assert_eq!(resp3_url(""), "?protocol=resp3");
    assert_eq!(resp3_url("?"), "?&protocol=resp3");
    assert_eq!(resp3_url("redis://h/?protocol=resp2"), "redis://h/?protocol=resp2&protocol=resp3");
}

#[test]
fn topics_have_their_channels() {
    assert_eq!(RelayTopic::Settings.channel_name(), "settings");
    assert_eq!(RelayTopic::TrackedWallets.channel_name(), "tracked_wallets");
    assert_eq!(RelayTopic::PriceUpdates.channel_name(), "price_updates");
    assert_eq!(RelayTopic::SolPriceUpdates.channel_name(), "sol_price_updates");
    for topic in [
        RelayTopic::Settings,
        RelayTopic::TrackedWallets,
        RelayTopic::PriceUpdates,
        RelayTopic::SolPriceUpdates,
    ] {
        assert_eq!(topic_of(&topic.channel_name()), Some(topic));
    }
    assert_eq!(topic_of("Settings"), None);
    assert_eq!(topic_of(""), None);
    assert_eq!(
        update_topics(),
        vec![RelayTopic::Settings, RelayTopic::TrackedWallets, RelayTopic::PriceUpdates]
    );
}

#[test]
fn publish_kinds_go_to_their_topics() {
    assert_eq!(PublishKind::TrackedWalletUpdate.topic(), RelayTopic::TrackedWallets);
    assert_eq!(PublishKind::WalletAddressUpdate.topic(), RelayTopic::TrackedWallets);
    assert_eq!(PublishKind::SettingsUpdate.topic(), RelayTopic::Settings);
    assert_eq!(PublishKind::SettingsDelete.topic(), RelayTopic::Settings);
    assert_eq!(PublishKind::PriceUpdate.topic(), RelayTopic::PriceUpdates);
    assert_eq!(PublishKind::SolPriceUpdate.topic(), RelayTopic::SolPriceUpdates);
}

#[test]
fn a_publication_that_always_fails_is_repeated_five_times() {
    assert_eq!(MAX_RETRIES, 5);
    assert_eq!(RECONNECT_DELAY_MS, 1_000);
    let mut publication = Publication::new(PublishKind::SettingsUpdate);
    let mut retries = 0;
    let mut attempts = 0;
    loop {
        attempts += 1;
        match publication.attempt_finished(Err("connection reset".to_string())) {
            PublishStep::RetryAfter { delay_ms } => {
                assert_eq!(delay_ms, 1_000);
                retries += 1;
                assert_eq!(publication.retries, retries);
            }
            PublishStep::GiveUp { error, status_details } => {
                match error {
                    AppError::Generic(why) => assert_eq!(
                        why,
                        "Failed to publish settings after 5 retries: connection reset"
                    ),
                    other => panic!("expected a generic error, got {:?}", other),
                }
                assert_eq!(
                    status_details.as_deref(),
                    Some("Failed to publish after 5 retries: connection reset")
                );
                break;
            }
            PublishStep::Done => panic!("a failure cannot end the publication well"),
        }
        assert!(attempts < 100);
    }
    assert_eq!(retries, 5);
    assert_eq!(attempts, 6);
}

#[test]
fn a_publication_ends_with_the_first_success() {
    let mut publication = Publication::new(PublishKind::PriceUpdate);
    assert!(matches!(publication.attempt_finished(Ok(())), PublishStep::Done));
    assert_eq!(publication.retries, 0);
    let mut later = Publication::new(PublishKind::PriceUpdate);
    for _ in 0..3 {
        assert!(matches!(
            later.attempt_finished(Err("x".to_string())),
            PublishStep::RetryAfter { delay_ms: 1_000 }
        ));
    }
    assert!(matches!(later.attempt_finished(Ok(())), PublishStep::Done));
    assert_eq!(later.retries, 3);
}

#[test]
fn every_kind_gives_up_in_its_own_words() {
    let cause = "timed out".to_string();
    let expected = [
        (PublishKind::TrackedWalletUpdate, false, "Failed to publish wallet update after 5 retries: timed out", None),
        (
            PublishKind::SettingsUpdate,
            false,
            "Failed to publish settings after 5 retries: timed out",
            Some("Failed to publish after 5 retries: timed out"),
        ),
        (PublishKind::WalletAddressUpdate, false, "Failed to publish wallet update after 5 retries: timed out", None),
        (PublishKind::SettingsDelete, false, "Failed to publish settings delete after 5 retries: timed out", None),
        (
            PublishKind::PriceUpdate,
            true,
            "Failed to publish price update after 5 retries: timed out",
            Some("Failed to publish price update after 5 retries: timed out"),
        ),
        (PublishKind::SolPriceUpdate, true, "Failed to publish SOL price update after 5 retries: timed out", None),
    ];
    for (kind, relay_error, words, status) in expected {
        match kind.failure(&cause) {
            AppError::RedisError(why) => {
                assert!(relay_error);
                assert_eq!(why, words);
            }
            AppError::Generic(why) => {
                assert!(!relay_error);
                assert_eq!(why, words);
            }
            other => panic!("unexpected error {:?}", other),
        }
        assert_eq!(kind.status_details(&cause).as_deref(), status);
    }
}

#[test]
fn payload_of_a_tracked_wallet_update() {
    let id = 0x67e5_5044_10b1_426f_9247_bb68_0e5f_e0c8u128;
    assert_eq!(
        tracked_wallet_update_payload(&wallet(Some(id), true), "add"),
        r#"{"action":"add","id":"67e55044-10b1-426f-9247-bb680e5fe0c8","is_active":true,"wallet_address":"Wallet111"}"#
    );
    assert_eq!(
        tracked_wallet_update_payload(&wallet(None, false), "archive"),
        r#"{"action":"archive","id":null,"is_active":false,"wallet_address":"Wallet111"}"#
    );
    let parsed: serde_json::Value =
        serde_json::from_str(&tracked_wallet_update_payload(&wallet(Some(1), true), "delete")).unwrap();
    assert_eq!(parsed["id"].as_str(), Some("00000000-0000-0000-0000-000000000001"));
    assert_eq!(parsed["wallet_address"].as_str(), Some("Wallet111"));
    assert_eq!(parsed["action"].as_str(), Some("delete"));
    assert_eq!(parsed["is_active"].as_bool(), Some(true));
}

#[test]
fn payloads_of_address_updates_and_deleted_settings() {
    assert_eq!(
        wallet_address_update_payload("Wallet111", "unarchive"),
        r#"{"action":"unarchive","wallet_address":"Wallet111"}"#
    );
    assert_eq!(
        wallet_address_update_payload("quo\"te", "a\\b"),
        r#"{"action":"a\\b","wallet_address":"quo\"te"}"#
    );
    assert_eq!(settings_delete_payload("abc-123"), r#"{"settings_id":"abc-123"}"#);
}

#[test]
fn a_published_wallet_update_is_read_back_as_an_event() {
    let payload = tracked_wallet_update_payload(&wallet(Some(9), true), "archive");
    match read_wallet_update(&payload, moment()) {
        PushAction::Emit(Event::WalletStateChange(notification)) => {
            assert_eq!(notification.type_, "wallet_state_change");
            assert_eq!(notification.data.wallet_address, "Wallet111");
            assert_eq!(notification.data.change_type, WalletStateChangeType::Archived);
            assert_eq!(notification.data.timestamp, moment());
            let details = notification.data.details.expect("details");
            assert_eq!(details, serde_json::from_str::<serde_json::Value>(&payload).unwrap());
        }
        other => panic!("expected an event, got {:?}", other),
    }
}

#[test]
fn actions_name_changes() {
    assert_eq!(change_type_for("add"), Some(WalletStateChangeType::Added));
    assert_eq!(change_type_for("archive"), Some(WalletStateChangeType::Archived));
    assert_eq!(change_type_for("unarchive"), Some(WalletStateChangeType::Unarchived));
    assert_eq!(change_type_for("delete"), Some(WalletStateChangeType::Deleted));
    assert_eq!(change_type_for("update"), None);
    assert_eq!(change_type_for("Add"), None);
    assert_eq!(change_type_for(""), None);
}

#[test]
fn wallet_updates_that_say_nothing_are_dropped() {
    let dropped = |payload: &str| match read_wallet_update(payload, moment()) {
        PushAction::Dropped(reason) => reason,
        other => panic!("expected a drop for {:?}, got {:?}", payload, other),
    };
    assert_eq!(dropped("{not json"), DropReason::MalformedUpdate);
    assert_eq!(dropped(""), DropReason::MalformedUpdate);
    assert_eq!(dropped(r#"{"wallet_address":"W"}"#), DropReason::MissingAction);
    assert_eq!(dropped(r#"{"action":5,"wallet_address":"W"}"#), DropReason::MissingAction);
    assert_eq!(dropped(r#"["action"]"#), DropReason::MissingAction);
    assert_eq!(dropped(r#""add""#), DropReason::MissingAction);
    assert_eq!(dropped(r#"{"action":"rename","wallet_address":"W"}"#), DropReason::UnknownAction);
}

#[test]
fn a_wallet_update_without_address_reports_the_empty_address() {
    for payload in [r#"{"action":"delete"}"#, r#"{"action":"delete","wallet_address":17}"#] {
        match read_wallet_update(payload, moment()) {
            PushAction::Emit(Event::WalletStateChange(notification)) => {
                assert_eq!(notification.data.wallet_address, "");
                assert_eq!(notification.data.change_type, WalletStateChangeType::Deleted);
            }
            other => panic!("expected an event, got {:?}", other),
        }
    }
}

#[test]
fn messages_are_routed_by_channel() {
    let some = |text: &str| Some(text.to_string());
    match route_message(some("settings"), some("{\"a\":1}"), moment()) {
        PushAction::DecodeSettings { payload } => assert_eq!(payload, "{\"a\":1}"),
        other => panic!("expected settings, got {:?}", other),
    }
    match route_message(some("price_updates"), some("{}"), moment()) {
        PushAction::DecodePriceUpdate { payload } => assert_eq!(payload, "{}"),
        other => panic!("expected a price update, got {:?}", other),
    }
    assert!(matches!(
        route_message(some("tracked_wallets"), some(r#"{"action":"add","wallet_address":"W"}"#), moment()),
        PushAction::Emit(Event::WalletStateChange(_))
    ));
    assert!(matches!(
        route_message(some("sol_price_updates"), some("{}"), moment()),
        PushAction::Dropped(DropReason::UnknownChannel)
    ));
    assert!(matches!(
        route_message(some("elsewhere"), some("{}"), moment()),
        PushAction::Dropped(DropReason::UnknownChannel)
    ));
    assert!(matches!(
        route_message(None, some("{}"), moment()),
        PushAction::Dropped(DropReason::UnreadableChannel)
    ));
    assert!(matches!(
        route_message(some("settings"), None, moment()),
        PushAction::Dropped(DropReason::UnreadablePayload)
    ));
    assert!(matches!(
        route_message(None, None, moment()),
        PushAction::Dropped(DropReason::UnreadablePayload)
    ));
}

#[test]
fn frames_are_dispatched_by_kind_and_length() {
    let message = vec![bulk("tracked_wallets"), bulk(r#"{"action":"unarchive","wallet_address":"W9"}"#)];
    match dispatch_push_at(PushKind::Message, &message, moment()) {
        PushAction::Emit(Event::WalletStateChange(notification)) => {
            assert_eq!(notification.data.wallet_address, "W9");
            assert_eq!(notification.data.change_type, WalletStateChangeType::Unarchived);
            assert_eq!(notification.data.timestamp, moment());
        }
        other => panic!("expected an event, got {:?}", other),
    }
    assert!(matches!(dispatch_push_at(PushKind::Subscribe, &message, moment()), PushAction::Acknowledged));
    assert!(matches!(
        dispatch_push_at(PushKind::Other, &message, moment()),
        PushAction::Dropped(DropReason::NotAMessage)
    ));
    assert!(matches!(
        dispatch_push_at(PushKind::Message, &vec![bulk("settings")], moment()),
        PushAction::Dropped(DropReason::NotAMessage)
    ));
    assert!(matches!(
        dispatch_push_at(PushKind::Message, &vec![], moment()),
        PushAction::Dropped(DropReason::NotAMessage)
    ));
    let longer = vec![bulk("settings"), bulk("{}"), bulk("ignored")];
    assert!(matches!(
        dispatch_push_at(PushKind::Message, &longer, moment()),
        PushAction::DecodeSettings { .. }
    ));
}

#[test]
fn frame_values_are_read_as_redis_reads_them() {
    let invalid_utf8 = redis::Value::BulkString(vec![0xFF, 0xFE]);
    assert!(matches!(
        dispatch_push_at(PushKind::Message, &vec![bulk("settings"), invalid_utf8], moment()),
        PushAction::Dropped(DropReason::UnreadablePayload)
    ));
    assert!(matches!(
        dispatch_push_at(PushKind::Message, &vec![redis::Value::Nil, bulk("{}")], moment()),
        PushAction::Dropped(DropReason::UnreadableChannel)
    ));
    let simple = vec![redis::Value::SimpleString("price_updates".to_string()), redis::Value::Int(12)];
    match dispatch_push_at(PushKind::Message, &simple, moment()) {
        PushAction::DecodePriceUpdate { payload } => assert_eq!(payload, "12"),
        other => panic!("expected a price update, got {:?}", other),
    }
    match dispatch_push_at(PushKind::Message, &vec![bulk("settings"), redis::Value::Okay], moment()) {
        PushAction::DecodeSettings { payload } => assert_eq!(payload, "OK"),
        other => panic!("expected settings, got {:?}", other),
    }
}

#[test]
fn a_dispatched_change_is_noted_at_the_time_of_the_call() {
    let message = vec![bulk("tracked_wallets"), bulk(r#"{"action":"add","wallet_address":"W"}"#)];
    let before = chrono::Utc::now().timestamp();
    let action = dispatch_push(PushKind::Message, &message);
    let after = chrono::Utc::now().timestamp();
    match action {
        PushAction::Emit(Event::WalletStateChange(notification)) => {
            assert!(before <= notification.data.timestamp.secs);
            assert!(notification.data.timestamp.secs <= after);
            assert_eq!(notification.data.change_type, WalletStateChangeType::Added);
        }
        other => panic!("expected an event, got {:?}", other),
    }
    assert!(matches!(dispatch_push(PushKind::Subscribe, &vec![]), PushAction::Acknowledged));
}

#[test]
fn the_payload_of_a_sol_price_is_the_second_value() {
    let message = vec![bulk("sol_price_updates"), bulk(r#"{"price_usd":150.5}"#)];
    assert_eq!(sol_price_payload(PushKind::Message, &message).as_deref(), Some(r#"{"price_usd":150.5}"#));
    assert_eq!(sol_price_payload(PushKind::Subscribe, &message), None);
    assert_eq!(sol_price_payload(PushKind::Other, &message), None);
    assert_eq!(sol_price_payload(PushKind::Message, &vec![bulk("only")]), None);
    assert_eq!(sol_price_payload(PushKind::Message, &vec![bulk("c"), redis::Value::Nil]), None);
    assert_eq!(
        sol_price_payload(PushKind::Message, &vec![redis::Value::Nil, bulk("p")]).as_deref(),
        Some("p")
    );
}

#[test]
fn setting_up_fails_in_the_words_of_the_step() {
    let cause = "refused".to_string();
    let expected = [
        (SetupStage::CreateClient, "Failed to create Redis client: refused"),
        (SetupStage::Connect, "Failed to create Redis connection: refused"),
        (SetupStage::OpenSubscription, "Failed to create connection: refused"),
        (SetupStage::Subscribe, "Failed to subscribe: refused"),
    ];
    for (stage, words) in expected {
        match stage.failure(false, &cause) {
            AppError::Generic(why) => assert_eq!(why, words),
            other => panic!("expected a generic error, got {:?}", other),
        }
        match stage.failure(true, &cause) {
            AppError::RedisError(why) => assert_eq!(why, words),
            other => panic!("expected a relay error, got {:?}", other),
        }
    }
}

#[test]
fn opening_the_connection_is_reported() {
    let opened = connection_opened(Ok(()));
    assert_eq!(opened.status, ConnectionStatus::Connected);
    assert!(opened.details.is_none());
    assert!(opened.result.is_ok());
    let failed = connection_opened(Err("no route".to_string()));
    assert_eq!(failed.status, ConnectionStatus::Error);
    assert_eq!(failed.details.as_deref(), Some("no route"));
    match failed.result {
        Err(AppError::Generic(why)) => assert_eq!(why, "Failed to create Redis connection: no route"),
        other => panic!("expected a generic error, got {:?}", other),
    }
}

#[test]
fn the_link_is_healthy_when_it_answers_pong() {
    let pong = health_from_reply(Ok("PONG".to_string()));
    assert!(matches!(pong.healthy, Ok(true)));
    assert!(pong.status_details.is_none());
    for answer in ["pong", "PONG\n", "", "OK"] {
        let other = health_from_reply(Ok(answer.to_string()));
        assert!(matches!(other.healthy, Ok(false)));
        assert!(other.status_details.is_none());
    }
    let failed = health_from_reply(Err("broken pipe".to_string()));
    match failed.healthy {
        Err(AppError::Generic(why)) => assert_eq!(why, "Redis health check failed: broken pipe"),
        other => panic!("expected a generic error, got {:?}", other),
    }
    assert_eq!(failed.status_details.as_deref(), Some("Redis health check failed: broken pipe"));
}

#[test]
fn keep_alive_ends_with_the_first_failed_probe() {
    assert_eq!(keep_alive_step(true), KeepAliveStep::ProbeAfter { delay_ms: 30_000 });
    assert_eq!(keep_alive_step(false), KeepAliveStep::Stop);
}

#[test]
fn a_failing_forwarder_reports_once_a_minute() {
    assert_eq!(forwarding_step(false, None, 10), (ForwardStep::Finish, None));
    assert_eq!(forwarding_step(false, Some(3), 10), (ForwardStep::Finish, Some(3)));
    assert_eq!(
        forwarding_step(true, None, 10),
        (ForwardStep::RetryAfter { delay_ms: 1_000, report: true }, Some(10))
    );
    assert_eq!(
        forwarding_step(true, Some(10), 70),
        (ForwardStep::RetryAfter { delay_ms: 1_000, report: false }, Some(10))
    );
    assert_eq!(
        forwarding_step(true, Some(10), 71),
        (ForwardStep::RetryAfter { delay_ms: 1_000, report: true }, Some(71))
    );
    assert_eq!(
        forwarding_step(true, Some(100), 50),
        (ForwardStep::RetryAfter { delay_ms: 1_000, report: false }, Some(100))
    );
    assert_eq!(
        forwarding_step(true, Some(0), u64::MAX),
        (ForwardStep::RetryAfter { delay_ms: 1_000, report: true }, Some(u64::MAX))
    );
}
