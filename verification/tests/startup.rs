use trading_core::error::AppError;
use trading_core::startup::{
    fetch_failure, initialization_failure, needs_user, receiver_unavailable, user_creation_failure,
    Fetch,
};

#[test]
fn a_failed_read_of_the_wallets_stops_the_start() {
    let cause = fetch_failure(Fetch::TrackedWallets);
    match &cause {
        AppError::DatabaseError(why) => {
            assert_eq!(why, "Failed to fetch wallets: Failed to fetch tracked wallets")
        }
        other => panic!("expected a database error, got {:?}", other),
    }
    match initialization_failure(Fetch::TrackedWallets, &cause) {
        AppError::InitializationError(why) => assert_eq!(
            why,
            "Failed to fetch wallets: Database error: Failed to fetch wallets: Failed to fetch tracked wallets"
        ),
        other => panic!("expected an initialization error, got {:?}", other),
    }
}

#[test]
fn a_failed_read_of_the_settings_stops_the_start() {
    let cause = fetch_failure(Fetch::CopyTradeSettings);
    match initialization_failure(Fetch::CopyTradeSettings, &cause) {
        AppError::InitializationError(why) => assert_eq!(
            why,
            "Failed to fetch settings: Database error: Failed to fetch settings: Failed to fetch copy trade settings"
        ),
        other => panic!("expected an initialization error, got {:?}", other),
    }
}

#[test]
fn an_unknown_user_is_created() {
    assert!(needs_user(false));
    assert!(!needs_user(true));
    match user_creation_failure(&AppError::PostgrestError("conflict".to_string())) {
        AppError::InitializationError(why) => {
            assert_eq!(why, "Failed to create user: Postgrest error: conflict")
        }
        other => panic!("expected an initialization error, got {:?}", other),
    }
}

#[test]
fn a_pipeline_is_started_once() {
    match receiver_unavailable() {
        AppError::InitializationError(why) => assert_eq!(why, "Message receiver not available"),
        other => panic!("expected an initialization error, got {:?}", other),
    }
}
