//! The errors with which starting a session fails.

use crate::error::{labelled, AppError};
use vstd::prelude::*;
use vstd::string::StringExecFns;

verus! {

/// What a session reads from the repository when it starts.
#[derive(Debug, Clone, Copy, PartialEq, Eq, Structural)]
pub enum Fetch {
    TrackedWallets,
    CopyTradeSettings,
}

impl Fetch {
    /// The words for the failure to read, as the repository's side has them.
    pub open spec fn fetch_text(self) -> Seq<char> {
        match self {
            Fetch::TrackedWallets => "Failed to fetch wallets: Failed to fetch tracked wallets"@,
            Fetch::CopyTradeSettings => "Failed to fetch settings: Failed to fetch copy trade settings"@,
        }
    }

    /// The words that introduce the cause when the session gives up.
    pub open spec fn label(self) -> Seq<char> {
        match self {
            Fetch::TrackedWallets => "Failed to fetch wallets: "@,
            Fetch::CopyTradeSettings => "Failed to fetch settings: "@,
        }
    }
}

/// The error of a read from the repository that failed.
pub fn fetch_failure(what: Fetch) -> (error: AppError)
    ensures
        error matches AppError::DatabaseError(why) && why@ == what.fetch_text(),
{
    match what {
        Fetch::TrackedWallets => AppError::DatabaseError(
            String::from_str("Failed to fetch wallets: Failed to fetch tracked wallets"),
        ),
        Fetch::CopyTradeSettings => AppError::DatabaseError(
            String::from_str("Failed to fetch settings: Failed to fetch copy trade settings"),
        ),
    }
}

/// The error with which a session does not start because a read from the
/// repository failed with `cause`.
pub fn initialization_failure(what: Fetch, cause: &AppError) -> (error: AppError)
    ensures
        error matches AppError::InitializationError(why) && why@ == what.label() + cause.text(),
{
    let shown = cause.to_string();
    match what {
        Fetch::TrackedWallets => AppError::InitializationError(
            labelled("Failed to fetch wallets: ", &shown),
        ),
        Fetch::CopyTradeSettings => AppError::InitializationError(
            labelled("Failed to fetch settings: ", &shown),
        ),
    }
}

/// Whether the user of the session has to be created: where the repository
/// does not know them.
pub fn needs_user(known: bool) -> (create: bool)
    ensures
        create == !known,
{
    !known
}

/// The error with which a session does not start because its user could not
/// be created.
pub fn user_creation_failure(cause: &AppError) -> (error: AppError)
    ensures
        error matches AppError::InitializationError(why) && why@ == "Failed to create user: "@
            + cause.text(),
{
    AppError::InitializationError(labelled("Failed to create user: ", &cause.to_string()))
}

/// The error of a pipeline that is started a second time: the receiving end
/// of its queue was handed out the first time.
pub fn receiver_unavailable() -> (error: AppError)
    ensures
        error matches AppError::InitializationError(why) && why@ == "Message receiver not available"@,
{
    AppError::InitializationError(String::from_str("Message receiver not available"))
}

} // verus!
