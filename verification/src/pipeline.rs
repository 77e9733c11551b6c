//! The pipeline that takes observed trades one at a time, the supervision of
//! the tasks around it, and the copy-trade rules that it works under.

use crate::error::{labelled, AppError};
use crate::events::Event;
use crate::models::{
    ClientTxInfo, CopyTradeSettings, TrackedWallet, WalletStateChange, WalletStateChangeType,
};
use vstd::prelude::*;

verus! {

/// The milliseconds that the pipeline waits for a trade before it looks at
/// the stop flag again.
pub const IDLE_TICK_MS: u64 = 100;

/// The milliseconds between two looks of the supervisor at its tasks.
pub const SUPERVISOR_TICK_MS: u64 = 1_000;

/// The milliseconds that a stop leaves the tasks to wind down.
pub const SHUTDOWN_PAUSE_MS: u64 = 1_000;

/// What the runner of the pipeline reports.
#[derive(Debug)]
pub enum PipelineEvent {
    /// The pipeline has started.
    Started,
    /// A trade came off the queue.
    Received(ClientTxInfo),
    /// The wait for a trade ran out.
    IdleTick,
    /// The trade that was handed out has been processed.
    Processed(Result<(), AppError>),
}

/// What the runner of the pipeline is to do next.
#[derive(Debug)]
pub enum PipelineAction {
    /// Wait for the next trade, for `idle_ms` at most.
    Wait { idle_ms: u64 },
    /// Process the trade, under the rules as they stand now.
    Process(ClientTxInfo),
    /// End the pipeline.
    Stop,
}

/// An action and, where processing failed, the words to make known.
#[derive(Debug)]
pub struct PipelineOutput {
    pub action: PipelineAction,
    pub report: Option<String>,
}

/// Whether `action` is what the pipeline does at the top of its loop.
pub open spec fn is_loop_top(action: PipelineAction, stop: bool) -> bool {
    if stop {
        action is Stop
    } else {
        action == (PipelineAction::Wait { idle_ms: IDLE_TICK_MS })
    }
}

/// Says what the pipeline does next. A trade that came off the queue is
/// processed, stop or no stop. After anything else the pipeline stops where a
/// stop is asked for and waits for the next trade where none is: a trade
/// that failed holds up nothing, it is made known and that is all.
pub fn pipeline_step(stop: bool, event: PipelineEvent) -> (output: PipelineOutput)
    ensures
        event matches PipelineEvent::Received(trade) ==> output.action == PipelineAction::Process(
            trade,
        ),
        !(event is Received) ==> is_loop_top(output.action, stop),
        event matches PipelineEvent::Processed(Err(error)) ==> (output.report matches Some(words)
            && words@ == "Error processing transaction: "@ + error.text()),
        !(event matches PipelineEvent::Processed(Err(_))) ==> output.report is None,
{
    let report = match &event {
        PipelineEvent::Processed(Err(error)) => Some(
            labelled("Error processing transaction: ", &error.to_string()),
        ),
        _ => None,
    };
    let action = match event {
        PipelineEvent::Received(trade) => PipelineAction::Process(trade),
        _ => {
            if stop {
                PipelineAction::Stop
            } else {
                PipelineAction::Wait { idle_ms: IDLE_TICK_MS }
            }
        },
    };
    PipelineOutput { action, report }
}

/// The place of the first rules for the wallet `wallet` at or after `from`,
/// or the length of the list where there are none.
pub open spec fn first_for_wallet(list: Seq<CopyTradeSettings>, wallet: u128, from: int) -> int
    decreases list.len() - from,
{
    if from < 0 || from >= list.len() {
        list.len() as int
    } else if list[from].tracked_wallet_id == wallet {
        from
    } else {
        first_for_wallet(list, wallet, from + 1)
    }
}

/// The list with `update` in it: in place of the first rules for the same
/// wallet, or at the end where the list has none for it.
pub open spec fn with_update(list: Seq<CopyTradeSettings>, update: CopyTradeSettings) -> Seq<
    CopyTradeSettings,
> {
    let at = first_for_wallet(list, update.tracked_wallet_id, 0);
    if at < list.len() {
        list.update(at, update)
    } else {
        list.push(update)
    }
}

/// Where the first rules for a wallet stand: no rules before them are for the
/// wallet, and they are, unless the place is the end of the list.
pub proof fn lemma_first_for_wallet(list: Seq<CopyTradeSettings>, wallet: u128, from: int)
    requires
        0 <= from <= list.len(),
    ensures
        from <= first_for_wallet(list, wallet, from) <= list.len(),
        forall|i: int|
            from <= i < first_for_wallet(list, wallet, from) ==> (#[trigger] list[i]).tracked_wallet_id
                != wallet,
        first_for_wallet(list, wallet, from) < list.len() ==> list[first_for_wallet(
            list,
            wallet,
            from,
        )].tracked_wallet_id == wallet,
    decreases list.len() - from,
{
    if from < list.len() && list[from].tracked_wallet_id != wallet {
        lemma_first_for_wallet(list, wallet, from + 1);
    }
}

/// Taking the same rules in twice is the same as taking them in once, and
/// once taken in, the rules are the first for their wallet.
pub proof fn lemma_update_is_idempotent(list: Seq<CopyTradeSettings>, update: CopyTradeSettings)
    ensures
        with_update(with_update(list, update), update) == with_update(list, update),
        first_for_wallet(with_update(list, update), update.tracked_wallet_id, 0) < with_update(
            list,
            update,
        ).len(),
        with_update(list, update)[first_for_wallet(
            with_update(list, update),
            update.tracked_wallet_id,
            0,
        )] == update,
        list.len() <= with_update(list, update).len() <= list.len() + 1,
{
    let wallet = update.tracked_wallet_id;
    let at = first_for_wallet(list, wallet, 0);
    let once = with_update(list, update);
    lemma_first_for_wallet(list, wallet, 0);
    lemma_first_for_wallet(once, wallet, 0);
    let again = first_for_wallet(once, wallet, 0);
    assert(once[at] == update);
    assert(again == at) by {
        if again < at {
            assert(once[again] == list[again]);
        }
        if again > at {
            assert(once[at].tracked_wallet_id != wallet);
        }
    }
    assert(once.update(at, update) =~= once);
}

/// Rules for other wallets stay where they are and as they are.
pub proof fn lemma_update_leaves_others(
    list: Seq<CopyTradeSettings>,
    update: CopyTradeSettings,
    i: int,
)
    requires
        0 <= i < list.len(),
        list[i].tracked_wallet_id != update.tracked_wallet_id,
    ensures
        with_update(list, update)[i] == list[i],
{
    lemma_first_for_wallet(list, update.tracked_wallet_id, 0);
}

/// The place of the first rules for the wallet `wallet`, or the length of
/// the list where it has none.
pub fn find_for_wallet(list: &Vec<CopyTradeSettings>, wallet: u128) -> (at: usize)
    ensures
        at == first_for_wallet(list@, wallet, 0),
{
    let mut at: usize = 0;
    while at < list.len()
        invariant
            at <= list@.len(),
            first_for_wallet(list@, wallet, 0) == first_for_wallet(list@, wallet, at as int),
        decreases list@.len() - at,
    {
        if list[at].tracked_wallet_id == wallet {
            return at;
        }
        at = at + 1;
    }
    at
}

/// Takes new rules into a list: they replace the first rules for the same
/// wallet, or are added at the end where the list has none for it.
pub fn upsert_settings(list: &mut Vec<CopyTradeSettings>, update: CopyTradeSettings)
    ensures
        final(list)@ == with_update(old(list)@, update),
{
    let at = find_for_wallet(list, update.tracked_wallet_id);
    if at < list.len() {
        list.set(at, update);
    } else {
        list.push(update);
    }
}

/// Takes new rules into the list of the session, as [`upsert_settings`]
/// does. A missing list stays missing.
pub fn apply_settings_update(settings: &mut Option<Vec<CopyTradeSettings>>, update: CopyTradeSettings)
    ensures
        *old(settings) is None ==> *final(settings) is None,
        *old(settings) matches Some(before) ==> (*final(settings) matches Some(after) && after@
            == with_update(before@, update)),
{
    match settings {
        None => {},
        Some(list) => {
            upsert_settings(list, update);
        },
    }
}

/// The place of the first wallet with the address `address` at or after
/// `from`, or the length of the list where there is none.
pub open spec fn first_at_address(list: Seq<TrackedWallet>, address: Seq<char>, from: int) -> int
    decreases list.len() - from,
{
    if from < 0 || from >= list.len() {
        list.len() as int
    } else if list[from].wallet_address@ == address {
        from
    } else {
        first_at_address(list, address, from + 1)
    }
}

/// The wallet `wallet`, active or not as `is_active` says.
pub open spec fn with_activity(wallet: TrackedWallet, is_active: bool) -> TrackedWallet {
    TrackedWallet { is_active, ..wallet }
}

/// A wallet of which only the address is known.
pub open spec fn wallet_at(address: String, is_active: bool) -> TrackedWallet {
    TrackedWallet {
        id: None,
        user_id: None,
        wallet_address: address,
        is_active,
        created_at: None,
        updated_at: None,
    }
}

/// The list with the wallet at `address` active or not as `is_active` says:
/// the first wallet with the address is marked so, and where the list has
/// none with it, one is added at the end.
pub open spec fn with_wallet(list: Seq<TrackedWallet>, address: String, is_active: bool) -> Seq<
    TrackedWallet,
> {
    let at = first_at_address(list, address@, 0);
    if at < list.len() {
        list.update(at, with_activity(list[at], is_active))
    } else {
        list.push(wallet_at(address, is_active))
    }
}

/// The list after a change to a tracked wallet. A wallet that was added or
/// taken out of the archive is in the list and active; one that was archived
/// is in the list and not active; one that was deleted is out of the list,
/// the first with its address that is. Any other change leaves the list as
/// it is.
pub open spec fn wallets_after(list: Seq<TrackedWallet>, change: WalletStateChange) -> Seq<
    TrackedWallet,
> {
    match change.change_type {
        WalletStateChangeType::Added => with_wallet(list, change.wallet_address, true),
        WalletStateChangeType::Unarchived => with_wallet(list, change.wallet_address, true),
        WalletStateChangeType::Archived => with_wallet(list, change.wallet_address, false),
        WalletStateChangeType::Deleted => {
            let at = first_at_address(list, change.wallet_address@, 0);
            if at < list.len() {
                list.remove(at)
            } else {
                list
            }
        },
        WalletStateChangeType::Updated => list,
    }
}

/// Where the first wallet with an address stands: no wallet before it has
/// the address, and it has, unless the place is the end of the list.
pub proof fn lemma_first_at_address(list: Seq<TrackedWallet>, address: Seq<char>, from: int)
    requires
        0 <= from <= list.len(),
    ensures
        from <= first_at_address(list, address, from) <= list.len(),
        forall|i: int|
            from <= i < first_at_address(list, address, from) ==> (#[trigger] list[i]).wallet_address@
                != address,
        first_at_address(list, address, from) < list.len() ==> list[first_at_address(
            list,
            address,
            from,
        )].wallet_address@ == address,
    decreases list.len() - from,
{
    if from < list.len() && list[from].wallet_address@ != address {
        lemma_first_at_address(list, address, from + 1);
    }
}

/// Whether no two wallets of the list have one address.
pub open spec fn addresses_are_distinct(list: Seq<TrackedWallet>) -> bool {
    forall|i: int, j: int|
        0 <= i < j < list.len() ==> (#[trigger] list[i]).wallet_address@ != (
        #[trigger] list[j]).wallet_address@
}

/// A change keeps a list without doubles free of doubles, and after it the
/// wallet is in the list exactly where the change says it is: in it after an
/// addition, an archiving or a return from the archive, out of it after a
/// deletion.
pub proof fn lemma_change_keeps_wallets_distinct(list: Seq<TrackedWallet>, change: WalletStateChange)
    requires
        addresses_are_distinct(list),
    ensures
        addresses_are_distinct(wallets_after(list, change)),
        change.change_type == WalletStateChangeType::Deleted ==> first_at_address(
            wallets_after(list, change),
            change.wallet_address@,
            0,
        ) == wallets_after(list, change).len(),
        change.change_type != WalletStateChangeType::Deleted && change.change_type
            != WalletStateChangeType::Updated ==> first_at_address(
            wallets_after(list, change),
            change.wallet_address@,
            0,
        ) < wallets_after(list, change).len(),
{
    let address = change.wallet_address@;
    let at = first_at_address(list, address, 0);
    let after = wallets_after(list, change);
    lemma_first_at_address(list, address, 0);
    lemma_first_at_address(after, address, 0);
    match change.change_type {
        WalletStateChangeType::Deleted => {
            if at < list.len() {
                assert forall|i: int, j: int| 0 <= i < j < after.len() implies (#[trigger] after[i]).wallet_address@
                    != (#[trigger] after[j]).wallet_address@ by {
                    let before_i = if i < at { i } else { i + 1 };
                    let before_j = if j < at { j } else { j + 1 };
                    assert(after[i] == list[before_i]);
                    assert(after[j] == list[before_j]);
                }
                let found = first_at_address(after, address, 0);
                if found < after.len() {
                    let before = if found < at { found } else { found + 1 };
                    assert(after[found] == list[before]);
                    assert(list[before].wallet_address@ == address);
                    assert(list[at].wallet_address@ == address);
                    if before < at {
                        assert(list[before].wallet_address@ != list[at].wallet_address@);
                    } else {
                        assert(list[at].wallet_address@ != list[before].wallet_address@);
                    }
                }
            }
        },
        WalletStateChangeType::Updated => {},
        _ => {
            if at < list.len() {
                assert(after[at].wallet_address@ == address);
            } else {
                assert(after[list.len() as int].wallet_address@ == address);
            }
            assert forall|i: int, j: int| 0 <= i < j < after.len() implies (#[trigger] after[i]).wallet_address@
                != (#[trigger] after[j]).wallet_address@ by {
                if at < list.len() {
                    assert(after[i].wallet_address@ == list[i].wallet_address@);
                    assert(after[j].wallet_address@ == list[j].wallet_address@);
                } else {
                    assert(after[i] == list[i]);
                    if j < list.len() {
                        assert(after[j] == list[j]);
                    }
                }
            }
        },
    }
}

/// The place of the first wallet with the address `address`, or the length
/// of the list where it has none.
pub fn find_at_address(list: &Vec<TrackedWallet>, address: &String) -> (at: usize)
    ensures
        at == first_at_address(list@, address@, 0),
{
    let mut at: usize = 0;
    while at < list.len()
        invariant
            at <= list@.len(),
            first_at_address(list@, address@, 0) == first_at_address(list@, address@, at as int),
        decreases list@.len() - at,
    {
        if list[at].wallet_address == *address {
            return at;
        }
        at = at + 1;
    }
    at
}

/// Marks the wallet at `address` as active or not, adding it where the list
/// does not have it.
fn mark_wallet(list: &mut Vec<TrackedWallet>, address: &String, is_active: bool)
    ensures
        final(list)@ == with_wallet(old(list)@, *address, is_active),
{
    let at = find_at_address(list, address);
    if at < list.len() {
        let marked = TrackedWallet {
            id: list[at].id,
            user_id: list[at].user_id,
            wallet_address: list[at].wallet_address.clone(),
            is_active,
            created_at: list[at].created_at,
            updated_at: list[at].updated_at,
        };
        list.set(at, marked);
    } else {
        list.push(
            TrackedWallet {
                id: None,
                user_id: None,
                wallet_address: address.clone(),
                is_active,
                created_at: None,
                updated_at: None,
            },
        );
    }
}

/// Takes a change to a tracked wallet into a list of wallets.
pub fn update_wallets(list: &mut Vec<TrackedWallet>, change: &WalletStateChange)
    ensures
        final(list)@ == wallets_after(old(list)@, *change),
{
    match change.change_type {
        WalletStateChangeType::Added => mark_wallet(list, &change.wallet_address, true),
        WalletStateChangeType::Unarchived => mark_wallet(list, &change.wallet_address, true),
        WalletStateChangeType::Archived => mark_wallet(list, &change.wallet_address, false),
        WalletStateChangeType::Deleted => {
            let at = find_at_address(list, &change.wallet_address);
            if at < list.len() {
                list.remove(at);
            }
        },
        WalletStateChangeType::Updated => {},
    }
}

/// Takes a change to a tracked wallet into the list of the session, as
/// [`update_wallets`] does. A missing list stays missing.
pub fn apply_wallet_change(wallets: &mut Option<Vec<TrackedWallet>>, change: &WalletStateChange)
    ensures
        *old(wallets) is None ==> *final(wallets) is None,
        *old(wallets) matches Some(before) ==> (*final(wallets) matches Some(after) && after@
            == wallets_after(before@, *change)),
{
    match wallets {
        None => {},
        Some(list) => {
            update_wallets(list, change);
        },
    }
}

/// What the supervisor hears of.
#[derive(Debug)]
pub enum SupervisorEvent {
    /// The stop flag was written: whether the notice got through, and the
    /// value of the flag.
    StopChanged { delivered: bool, stop: bool },
    /// An event arrived on the bus.
    Bus(Event),
    /// Time to look at the tasks: whether the pipeline has ended, and whether
    /// the monitor of the feed has.
    Tick { pipeline_finished: bool, monitor_finished: bool },
}

/// What the supervisor does next.
#[derive(Debug, Clone, Copy, PartialEq, Eq, Structural)]
pub enum SupervisorAction {
    /// Go on watching.
    Continue,
    /// End the session. A task that has ended is not started again.
    Shutdown,
}

/// The rules after the supervisor has heard of `event`: new rules are taken
/// in, nothing else touches them.
pub open spec fn settings_after(
    settings: Option<Vec<CopyTradeSettings>>,
    event: SupervisorEvent,
    after: Option<Vec<CopyTradeSettings>>,
) -> bool {
    match (event, settings) {
        (SupervisorEvent::Bus(Event::SettingsUpdate(notification)), Some(before)) => after matches Some(
            list,
        ) && list@ == with_update(before@, notification.data),
        (_, _) => after == settings,
    }
}

/// Whether the supervisor ends the session on `event`: on a stop that got
/// through, and on finding a task ended.
pub open spec fn ends_session(event: SupervisorEvent) -> bool {
    match event {
        SupervisorEvent::StopChanged { delivered, stop } => delivered && stop,
        SupervisorEvent::Bus(_) => false,
        SupervisorEvent::Tick { pipeline_finished, monitor_finished } => pipeline_finished
            || monitor_finished,
    }
}

/// Takes what the supervisor hears of, keeps the rules up to date, and says
/// whether the session goes on.
pub fn supervisor_step(settings: &mut Option<Vec<CopyTradeSettings>>, event: SupervisorEvent) -> (action:
    SupervisorAction)
    ensures
        settings_after(*old(settings), event, *final(settings)),
        ends_session(event) ==> action == SupervisorAction::Shutdown,
        !ends_session(event) ==> action == SupervisorAction::Continue,
{
    match event {
        SupervisorEvent::StopChanged { delivered, stop } => {
            if delivered && stop {
                SupervisorAction::Shutdown
            } else {
                SupervisorAction::Continue
            }
        },
        SupervisorEvent::Bus(Event::SettingsUpdate(notification)) => {
            apply_settings_update(settings, notification.data);
            SupervisorAction::Continue
        },
        SupervisorEvent::Bus(_) => SupervisorAction::Continue,
        SupervisorEvent::Tick { pipeline_finished, monitor_finished } => {
            if pipeline_finished || monitor_finished {
                SupervisorAction::Shutdown
            } else {
                SupervisorAction::Continue
            }
        },
    }
}

} // verus!
