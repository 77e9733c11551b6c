//! What is done with one observed trade: whether it is copied, what is asked
//! of the wallet service and of the execution service on the way, and what
//! is reported at the end.
//!
//! A [`TradeJob`] decides and builds; the services are called by whoever runs
//! it. The runner does what an action asks, hands the outcome back as an
//! event, and goes on until the action is to finish.

use crate::ambient::{fresh_id, now_utc, Timestamp};
use crate::binary64::Binary64;
use crate::error::{labelled, AppError};
use crate::events::{Event, EventKind};
use crate::models::{ClientTxInfo, CopyTradeSettings, TransactionLog};
use vstd::prelude::*;

verus! {

/// What the wallet service is told of a copied trade.
#[derive(Debug)]
pub struct TradeExecutionRequest {
    pub signature: String,
    pub token_address: String,
    pub token_name: String,
    pub token_symbol: String,
    pub transaction_type: String,
    pub amount_token: Binary64,
    pub amount_sol: Binary64,
    pub price_per_token: Binary64,
    pub token_image_uri: String,
}

/// Whether `request` tells of `trade`.
pub open spec fn is_request_for(request: TradeExecutionRequest, trade: ClientTxInfo) -> bool {
    &&& request.signature == trade.signature
    &&& request.token_address == trade.token_address
    &&& request.token_name == trade.token_name
    &&& request.token_symbol == trade.token_symbol
    &&& request.transaction_type@ == trade.transaction_type.label()
    &&& request.amount_token == trade.amount_token
    &&& request.amount_sol == trade.amount_sol
    &&& request.price_per_token == trade.price_per_token
    &&& request.token_image_uri == trade.token_image_uri
}

/// Whether `log` records `trade` for the user `user_id`.
pub open spec fn is_log_of(log: TransactionLog, trade: ClientTxInfo, user_id: Seq<char>) -> bool {
    &&& log.user_id@ == user_id
    &&& log.tracked_wallet_id is None
    &&& log.signature == trade.signature
    &&& log.transaction_type@ == trade.transaction_type.label()
    &&& log.token_address == trade.token_address
    &&& log.amount == trade.amount_token
    &&& log.price_sol == trade.price_per_token
}

/// Whether `event` says that `trade` was recorded for `user_id`.
pub open spec fn is_logged_event(event: Event, trade: ClientTxInfo, user_id: Seq<char>) -> bool {
    &&& event matches Event::TransactionLogged(notification)
    &&& is_log_of(notification.data, trade, user_id)
    &&& event.well_formed()
}

/// Whether `event` says that a tracked wallet made `trade`.
pub open spec fn is_trade_event(event: Event, trade: ClientTxInfo) -> bool {
    &&& event matches Event::TrackedWalletTrade(notification)
    &&& notification.data == trade
    &&& event.well_formed()
}

/// Whether `event` says that `trade` was copied.
pub open spec fn is_copied_event(event: Event, trade: ClientTxInfo) -> bool {
    &&& event matches Event::CopyTradeExecuted(notification)
    &&& notification.data == trade
    &&& event.well_formed()
}

/// Whether `events` are what is sent when `trade` has been processed: the
/// event that it was copied, if it was, then the event that it was
/// recorded, then the event that a tracked wallet traded.
pub open spec fn reports_trade(
    events: Seq<Event>,
    trade: ClientTxInfo,
    user_id: Seq<char>,
    copied: bool,
) -> bool {
    if copied {
        &&& events.len() == 3
        &&& is_copied_event(events[0], trade)
        &&& is_logged_event(events[1], trade, user_id)
        &&& is_trade_event(events[2], trade)
    } else {
        &&& events.len() == 2
        &&& is_logged_event(events[0], trade, user_id)
        &&& is_trade_event(events[1], trade)
    }
}

/// How many of `events` are of kind `kind`.
pub open spec fn count_of_kind(events: Seq<Event>, kind: EventKind) -> nat
    decreases events.len(),
{
    if events.len() == 0 {
        0
    } else {
        count_of_kind(events.drop_last(), kind) + if events.last().kind_of() == kind {
            1nat
        } else {
            0nat
        }
    }
}

/// Whatever became of the copy, a processed trade is recorded exactly once
/// and announced exactly once, and it is reported as copied only where it
/// was.
pub proof fn lemma_every_trade_is_reported_once(
    events: Seq<Event>,
    trade: ClientTxInfo,
    user_id: Seq<char>,
    copied: bool,
)
    requires
        reports_trade(events, trade, user_id, copied),
    ensures
        count_of_kind(events, EventKind::TransactionLogged) == 1,
        count_of_kind(events, EventKind::TrackedWalletTrade) == 1,
        count_of_kind(events, EventKind::CopyTradeExecuted) == if copied {
            1nat
        } else {
            0nat
        },
{
    reveal_with_fuel(count_of_kind, 4);
    if copied {
        assert(events.drop_last().len() == 2);
        assert(events.drop_last().drop_last().len() == 1);
        assert(events.drop_last().drop_last().drop_last().len() == 0);
        assert(events.drop_last().last() == events[1]);
        assert(events.drop_last().drop_last().last() == events[0]);
    } else {
        assert(events.drop_last().len() == 1);
        assert(events.drop_last().drop_last().len() == 0);
        assert(events.drop_last().last() == events[0]);
    }
}

/// What the end of a job hands to its runner: the events to send, in order,
/// and the result for the caller.
#[derive(Debug)]
pub struct TradeCompletion {
    pub events: Vec<Event>,
    pub result: Result<(), AppError>,
}

/// The rules that apply to a trade: the first of the list, whichever wallet
/// they were made for.
pub open spec fn applicable_settings(settings: Option<Vec<CopyTradeSettings>>) -> Option<
    CopyTradeSettings,
> {
    match settings {
        Some(list) => if list@.len() > 0 {
            Some(list@[0])
        } else {
            None
        },
        None => None,
    }
}

/// The rules that apply to a trade, if there are any.
pub fn select_settings(settings: &Option<Vec<CopyTradeSettings>>) -> (selected: Option<
    &CopyTradeSettings,
>)
    ensures
        applicable_settings(*settings) matches Some(first) ==> selected == Some(&first),
        applicable_settings(*settings) is None ==> selected is None,
{
    match settings {
        Some(list) => {
            if list.len() > 0 {
                Some(&list[0])
            } else {
                None
            }
        },
        None => None,
    }
}

/// Whether the rules ask for the trade to be copied.
pub open spec fn copying_enabled(settings: Option<Vec<CopyTradeSettings>>) -> bool {
    applicable_settings(settings) matches Some(first) && first.is_enabled
}

/// What the job waits for.
#[derive(Debug, Clone, Copy, PartialEq, Eq, Structural)]
pub enum TradePhase {
    AwaitingWalletInfo,
    AwaitingDecision,
    AwaitingExecution,
    AwaitingWalletUpdate,
    Finished,
}

/// What the runner reports back.
#[derive(Debug)]
pub enum TradeEvent {
    /// The wallet service gave the state of the wallet, or failed for the
    /// given cause.
    WalletInfoFetched(Result<(), String>),
    /// The rules were held against the trade and the wallet: the trade is to
    /// be copied, or not, or the rules could not be applied.
    Decided(Result<bool, AppError>),
    /// The execution service submitted the copy, or failed for the given
    /// cause.
    Executed(Result<(), String>),
    /// The wallet service took note of the copy, or failed for the given
    /// cause.
    WalletUpdated(Result<(), String>),
}

/// What the runner is to do next.
#[derive(Debug)]
pub enum TradeAction {
    /// Ask the wallet service for the state of the wallet.
    FetchWalletInfo,
    /// Hold the rules against the trade and the state of the wallet.
    Decide,
    /// Have the execution service submit the copy.
    Execute,
    /// Tell the wallet service of the copy.
    UpdateWallet(TradeExecutionRequest),
    /// Send the events and return the result.
    Finish(TradeCompletion),
    /// The job has finished before: there is nothing to do.
    Nothing,
}

/// Whether `action` ends the job of `trade` with the events of a trade that
/// was copied or not, as `copied` says.
pub open spec fn finishes(
    action: TradeAction,
    trade: ClientTxInfo,
    user_id: Seq<char>,
    copied: bool,
) -> bool {
    action matches TradeAction::Finish(completion) && reports_trade(
        completion.events@,
        trade,
        user_id,
        copied,
    )
}

/// Whether `action` ends the job without error.
pub open spec fn finishes_well(action: TradeAction) -> bool {
    action matches TradeAction::Finish(completion) && completion.result is Ok
}

/// Whether `action` ends the job with the error that the copy failed for
/// the reason `why`.
pub open spec fn finishes_with_failed_copy(action: TradeAction, why: Seq<char>) -> bool {
    action matches TradeAction::Finish(completion) && (completion.result matches Err(
        AppError::MessageProcessingError(said),
    ) && said@ == "Copy trade failed: "@ + why)
}

/// The one job of processing one trade.
#[derive(Debug)]
pub struct TradeJob {
    pub trade: ClientTxInfo,
    pub user_id: String,
    pub phase: TradePhase,
}

/// The request that tells the wallet service of `trade`.
pub fn execution_request(trade: &ClientTxInfo) -> (request: TradeExecutionRequest)
    ensures
        is_request_for(request, *trade),
{
    TradeExecutionRequest {
        signature: trade.signature.clone(),
        token_address: trade.token_address.clone(),
        token_name: trade.token_name.clone(),
        token_symbol: trade.token_symbol.clone(),
        transaction_type: trade.transaction_type.name(),
        amount_token: trade.amount_token,
        amount_sol: trade.amount_sol,
        price_per_token: trade.price_per_token,
        token_image_uri: trade.token_image_uri.clone(),
    }
}

/// The record of `trade` for `user_id`, under the identifier `id` and the
/// moment `now`.
pub fn transaction_log(trade: &ClientTxInfo, user_id: &String, id: u128, now: Timestamp) -> (log:
    TransactionLog)
    ensures
        is_log_of(log, *trade, user_id@),
        log.id == id,
        log.timestamp == now,
{
    TransactionLog {
        id,
        user_id: user_id.clone(),
        tracked_wallet_id: None,
        signature: trade.signature.clone(),
        transaction_type: trade.transaction_type.name(),
        token_address: trade.token_address.clone(),
        amount: trade.amount_token,
        price_sol: trade.price_per_token,
        timestamp: now,
    }
}

/// What ends the job of `trade`: the events that report it, with the record
/// under the identifier `log_id` and the moment `now`, and `result`.
pub fn complete(
    trade: ClientTxInfo,
    user_id: &String,
    copied: bool,
    result: Result<(), AppError>,
    log_id: u128,
    now: Timestamp,
) -> (completion: TradeCompletion)
    ensures
        reports_trade(completion.events@, trade, user_id@, copied),
        completion.result == result,
        completion.events@[completion.events@.len() - 2] matches Event::TransactionLogged(
            notification,
        ) && notification.data.id == log_id && notification.data.timestamp == now,
{
    let mut events: Vec<Event> = Vec::new();
    if copied {
        events.push(Event::copy_trade_executed(trade.clone()));
    }
    events.push(Event::transaction_logged(transaction_log(&trade, user_id, log_id, now)));
    events.push(Event::tracked_wallet_trade(trade));
    TradeCompletion { events, result }
}

impl TradeJob {
    /// Begins the job of `trade` for the user `user_id` under the rules in
    /// force. Where the rules ask for copies, the first thing is to ask for
    /// the state of the wallet. Where there are no rules or they are switched
    /// off, the job ends at once: the trade is recorded and announced, and
    /// nothing is asked of any service.
    pub fn begin(trade: ClientTxInfo, user_id: String, settings: &Option<Vec<CopyTradeSettings>>) -> (started:
        (TradeJob, TradeAction))
        ensures
            started.0.trade == trade,
            started.0.user_id == user_id,
            copying_enabled(*settings) ==> started.0.phase == TradePhase::AwaitingWalletInfo
                && started.1 is FetchWalletInfo,
            !copying_enabled(*settings) ==> started.0.phase == TradePhase::Finished && finishes(
                started.1,
                trade,
                user_id@,
                false,
            ) && finishes_well(started.1),
    {
        let enabled = match select_settings(settings) {
            Some(first) => first.is_enabled,
            None => false,
        };
        if enabled {
            (
                TradeJob { trade, user_id, phase: TradePhase::AwaitingWalletInfo },
                TradeAction::FetchWalletInfo,
            )
        } else {
            let mut job = TradeJob { trade, user_id, phase: TradePhase::AwaitingWalletInfo };
            let action = job.finish(false, Ok(()));
            (job, action)
        }
    }

    /// Ends the job.
    fn finish(&mut self, copied: bool, result: Result<(), AppError>) -> (action: TradeAction)
        ensures
            final(self).trade == old(self).trade,
            final(self).user_id == old(self).user_id,
            final(self).phase == TradePhase::Finished,
            finishes(action, old(self).trade, old(self).user_id@, copied),
            action matches TradeAction::Finish(completion) && completion.result == result,
    {
        self.phase = TradePhase::Finished;
        let completion = complete(
            self.trade.clone(),
            &self.user_id,
            copied,
            result,
            fresh_id(),
            now_utc(),
        );
        TradeAction::Finish(completion)
    }

    /// Ends the job with the error that the copy failed for the reason
    /// `why`.
    fn fail_copy(&mut self, why: String) -> (action: TradeAction)
        ensures
            final(self).trade == old(self).trade,
            final(self).user_id == old(self).user_id,
            final(self).phase == TradePhase::Finished,
            finishes(action, old(self).trade, old(self).user_id@, false),
            finishes_with_failed_copy(action, why@),
    {
        let error = AppError::MessageProcessingError(labelled("Copy trade failed: ", &why));
        self.finish(false, Err(error))
    }

    /// The action that the job waits to hear of.
    fn awaited(&self) -> (action: TradeAction)
        ensures
            awaits(action, self.phase, self.trade),
    {
        match self.phase {
            TradePhase::AwaitingWalletInfo => TradeAction::FetchWalletInfo,
            TradePhase::AwaitingDecision => TradeAction::Decide,
            TradePhase::AwaitingExecution => TradeAction::Execute,
            TradePhase::AwaitingWalletUpdate => TradeAction::UpdateWallet(
                execution_request(&self.trade),
            ),
            TradePhase::Finished => TradeAction::Nothing,
        }
    }

    /// Takes what the runner reports and says what to do next.
    ///
    /// With the state of the wallet at hand the rules are applied; where
    /// they allow the copy it is executed; once executed, the wallet service
    /// is told; once told, the job ends with the trade reported as copied.
    /// A failure on the way ends the job with an error, the rules' refusal
    /// without one, and either way the trade is recorded and announced. A
    /// report that the job does not wait for changes nothing: the action
    /// that it waits to hear of is asked for again.
    pub fn step(&mut self, event: TradeEvent) -> (action: TradeAction)
        ensures
            final(self).trade == old(self).trade,
            final(self).user_id == old(self).user_id,
            follows(old(self).phase, event, final(self).phase, action, old(self).trade, old(self).user_id@),
    {
        match (self.phase, event) {
            (TradePhase::AwaitingWalletInfo, TradeEvent::WalletInfoFetched(Ok(()))) => {
                self.phase = TradePhase::AwaitingDecision;
                TradeAction::Decide
            },
            (TradePhase::AwaitingWalletInfo, TradeEvent::WalletInfoFetched(Err(cause))) => {
                let inner = AppError::ServerError(labelled("Failed to get wallet info: ", &cause));
                self.fail_copy(inner.to_string())
            },
            (TradePhase::AwaitingDecision, TradeEvent::Decided(Ok(true))) => {
                self.phase = TradePhase::AwaitingExecution;
                TradeAction::Execute
            },
            (TradePhase::AwaitingDecision, TradeEvent::Decided(Ok(false))) => self.finish(
                false,
                Ok(()),
            ),
            (TradePhase::AwaitingDecision, TradeEvent::Decided(Err(refusal))) => self.fail_copy(
                refusal.to_string(),
            ),
            (TradePhase::AwaitingExecution, TradeEvent::Executed(Ok(()))) => {
                self.phase = TradePhase::AwaitingWalletUpdate;
                TradeAction::UpdateWallet(execution_request(&self.trade))
            },
            (TradePhase::AwaitingExecution, TradeEvent::Executed(Err(cause))) => {
                let inner = AppError::MessageProcessingError(
                    labelled("Execute copy trade failed: ", &cause),
                );
                self.fail_copy(inner.to_string())
            },
            (TradePhase::AwaitingWalletUpdate, TradeEvent::WalletUpdated(Ok(()))) => self.finish(
                true,
                Ok(()),
            ),
            (TradePhase::AwaitingWalletUpdate, TradeEvent::WalletUpdated(Err(cause))) => {
                let error = AppError::ServerError(labelled("Failed to update wallet: ", &cause));
                self.finish(false, Err(error))
            },
            (_, _) => self.awaited(),
        }
    }
}

/// Whether `action` is what a job of `trade` in `phase` waits to hear of.
pub open spec fn awaits(action: TradeAction, phase: TradePhase, trade: ClientTxInfo) -> bool {
    match phase {
        TradePhase::AwaitingWalletInfo => action is FetchWalletInfo,
        TradePhase::AwaitingDecision => action is Decide,
        TradePhase::AwaitingExecution => action is Execute,
        TradePhase::AwaitingWalletUpdate => action matches TradeAction::UpdateWallet(request)
            && is_request_for(request, trade),
        TradePhase::Finished => action is Nothing,
    }
}

/// Whether a job of `trade` for `user_id` that stands in `before` and hears
/// of `event` goes to `after` and answers `action`.
pub open spec fn follows(
    before: TradePhase,
    event: TradeEvent,
    after: TradePhase,
    action: TradeAction,
    trade: ClientTxInfo,
    user_id: Seq<char>,
) -> bool {
    match (before, event) {
        (TradePhase::AwaitingWalletInfo, TradeEvent::WalletInfoFetched(Ok(_))) => {
            after == TradePhase::AwaitingDecision && action is Decide
        },
        (TradePhase::AwaitingWalletInfo, TradeEvent::WalletInfoFetched(Err(cause))) => {
            &&& after == TradePhase::Finished
            &&& finishes(action, trade, user_id, false)
            &&& finishes_with_failed_copy(
                action,
                "Server error: "@ + ("Failed to get wallet info: "@ + cause@),
            )
        },
        (TradePhase::AwaitingDecision, TradeEvent::Decided(Ok(true))) => {
            after == TradePhase::AwaitingExecution && action is Execute
        },
        (TradePhase::AwaitingDecision, TradeEvent::Decided(Ok(false))) => {
            &&& after == TradePhase::Finished
            &&& finishes(action, trade, user_id, false)
            &&& finishes_well(action)
        },
        (TradePhase::AwaitingDecision, TradeEvent::Decided(Err(refusal))) => {
            &&& after == TradePhase::Finished
            &&& finishes(action, trade, user_id, false)
            &&& finishes_with_failed_copy(action, refusal.text())
        },
        (TradePhase::AwaitingExecution, TradeEvent::Executed(Ok(_))) => {
            after == TradePhase::AwaitingWalletUpdate && awaits(action, after, trade)
        },
        (TradePhase::AwaitingExecution, TradeEvent::Executed(Err(cause))) => {
            &&& after == TradePhase::Finished
            &&& finishes(action, trade, user_id, false)
            &&& finishes_with_failed_copy(
                action,
                "Message processing error: "@ + ("Execute copy trade failed: "@ + cause@),
            )
        },
        (TradePhase::AwaitingWalletUpdate, TradeEvent::WalletUpdated(Ok(_))) => {
            &&& after == TradePhase::Finished
            &&& finishes(action, trade, user_id, true)
            &&& finishes_well(action)
        },
        (TradePhase::AwaitingWalletUpdate, TradeEvent::WalletUpdated(Err(cause))) => {
            &&& after == TradePhase::Finished
            &&& finishes(action, trade, user_id, false)
            &&& action matches TradeAction::Finish(completion)
            &&& completion.result matches Err(AppError::ServerError(said))
            &&& said@ == "Failed to update wallet: "@ + cause@
        },
        (_, _) => after == before && awaits(action, before, trade),
    }
}

} // verus!
