//! The watch on the feed: when to connect, what to subscribe to, what to do
//! with each frame, and when to start over.
//!
//! A [`FeedMonitor`] decides; the socket, the decoder of trades and the queue
//! belong to whoever runs it. The runner does what an action asks and hands
//! the outcome back as an event, together with the stop flag as it stands.

use crate::connection::{
    is_up, next_state, retry_after_failure, ConnectStep, ConnectionEvent, ConnectionState,
    RetryStep, WebSocketConfig, WebSocketConnectionManager,
};
use crate::error::{labelled, AppError};
use crate::models::{ClientTxInfo, TrackedWallet};
use vstd::prelude::*;
use vstd::string::StringExecFns;

verus! {

/// The milliseconds to wait before looking again when no wallet is tracked.
pub const EMPTY_POLL_MS: u64 = 5_000;

/// The milliseconds to wait before starting over when a session of attempts
/// to connect has been abandoned.
pub const RECONNECT_PAUSE_MS: u64 = 1_000;

/// The addresses of the tracked wallets, in their order; none where the list
/// is missing.
pub fn wallet_addresses(wallets: &Option<Vec<TrackedWallet>>) -> (addresses: Vec<String>)
    ensures
        wallets is None ==> addresses@.len() == 0,
        wallets matches Some(list) ==> (addresses@.len() == list@.len() && forall|i: int|
            0 <= i < list@.len() ==> addresses@[i] == list@[i].wallet_address),
{
    let mut addresses: Vec<String> = Vec::new();
    match wallets {
        None => {},
        Some(list) => {
            let mut taken: usize = 0;
            while taken < list.len()
                invariant
                    taken <= list@.len(),
                    addresses@.len() == taken,
                    forall|i: int| 0 <= i < taken ==> addresses@[i] == list@[i].wallet_address,
                decreases list@.len() - taken,
            {
                addresses.push(list[taken].wallet_address.clone());
                taken = taken + 1;
            }
        },
    }
    addresses
}

/// Where the monitor stands in its cycle.
#[derive(Debug, Clone, Copy, PartialEq, Eq, Structural)]
pub enum MonitorPhase {
    /// Between cycles: waiting to be woken with the list of wallets.
    Idle,
    /// Waiting for the handshake.
    Connecting,
    /// Waiting for the delay after a failed handshake to pass.
    BackingOff,
    /// Waiting for the feed to take the subscription.
    Subscribing,
    /// Waiting for a frame.
    Receiving,
    /// Waiting for the trade that a frame describes.
    Decoding,
    /// Waiting for a trade to be queued.
    Queueing,
    /// Stopped for good.
    Stopped,
}

/// What came of waiting for a frame.
#[derive(Debug)]
pub enum Received {
    /// A frame of text.
    Text(String),
    /// The frame by which the other side closes the connection.
    Close,
    /// A frame of another kind, or none yet.
    Other,
    /// The stream of frames has ended.
    Ended,
    /// The transport failed.
    Failed(AppError),
}

/// What the runner reports back.
#[derive(Debug)]
pub enum MonitorEvent {
    /// The runner is ready for the next cycle, with the addresses of the
    /// tracked wallets as they stand now.
    Woke { addresses: Vec<String> },
    /// The handshake succeeded, or failed or ran out of time.
    ConnectFinished(Result<(), AppError>),
    /// The feed took the subscription, or sending it failed.
    SubscribeFinished(Result<(), AppError>),
    /// Waiting for a frame ended.
    FrameReceived(Received),
    /// The text of a frame described a trade, or none, or could not be read
    /// for the given cause.
    Decoded(Result<Option<ClientTxInfo>, String>),
    /// The trade was queued, or the queue refused it for the given cause.
    Queued(Result<(), String>),
}

/// What the runner is to do next.
#[derive(Debug)]
pub enum MonitorAction {
    /// Wait, then report `Woke`.
    Sleep { delay_ms: u64 },
    /// Report `Woke` at once.
    Refresh,
    /// Open the socket within the given time, then report `ConnectFinished`.
    Connect { timeout_ms: u64 },
    /// Subscribe to the trades of the addresses, then report
    /// `SubscribeFinished`.
    Subscribe { addresses: Vec<String> },
    /// Wait for a frame, then report `FrameReceived`.
    Receive,
    /// Work out the trade that the text describes, then report `Decoded`.
    Decode { text: String },
    /// Put the trade into the queue of the pipeline, then report `Queued`.
    Queue { trade: ClientTxInfo },
    /// Close the connection as well as can be, and end.
    Shutdown,
    /// The monitor has stopped: there is nothing to do.
    Nothing,
}

/// An action and, where something went wrong on the way to it, the error to
/// make known.
#[derive(Debug)]
pub struct MonitorOutput {
    pub action: MonitorAction,
    pub report: Option<AppError>,
}

/// A [`MonitorEvent`] without what it carries.
pub enum EventView {
    Woke { wallets: nat },
    ConnectFinished { ok: bool },
    SubscribeFinished { ok: bool },
    ReceivedText,
    ReceivedClose,
    ReceivedOther,
    ReceivedEnd,
    ReceivedFailure,
    Decoded { found: bool },
    DecodeFailed,
    Queued { ok: bool },
}

/// A [`MonitorAction`] without what it carries.
pub enum ActionView {
    Sleep { delay_ms: u64 },
    Refresh,
    Connect { timeout_ms: u64 },
    Subscribe,
    Receive,
    Decode,
    Queue,
    Shutdown,
    Nothing,
}

impl View for MonitorEvent {
    type V = EventView;

    open spec fn view(&self) -> EventView {
        match self {
            MonitorEvent::Woke { addresses } => EventView::Woke { wallets: addresses@.len() },
            MonitorEvent::ConnectFinished(outcome) => EventView::ConnectFinished { ok: outcome is Ok },
            MonitorEvent::SubscribeFinished(outcome) => EventView::SubscribeFinished {
                ok: outcome is Ok,
            },
            MonitorEvent::FrameReceived(Received::Text(_)) => EventView::ReceivedText,
            MonitorEvent::FrameReceived(Received::Close) => EventView::ReceivedClose,
            MonitorEvent::FrameReceived(Received::Other) => EventView::ReceivedOther,
            MonitorEvent::FrameReceived(Received::Ended) => EventView::ReceivedEnd,
            MonitorEvent::FrameReceived(Received::Failed(_)) => EventView::ReceivedFailure,
            MonitorEvent::Decoded(Ok(found)) => EventView::Decoded { found: found is Some },
            MonitorEvent::Decoded(Err(_)) => EventView::DecodeFailed,
            MonitorEvent::Queued(outcome) => EventView::Queued { ok: outcome is Ok },
        }
    }
}

impl View for MonitorAction {
    type V = ActionView;

    open spec fn view(&self) -> ActionView {
        match self {
            MonitorAction::Sleep { delay_ms } => ActionView::Sleep { delay_ms: *delay_ms },
            MonitorAction::Refresh => ActionView::Refresh,
            MonitorAction::Connect { timeout_ms } => ActionView::Connect { timeout_ms: *timeout_ms },
            MonitorAction::Subscribe { .. } => ActionView::Subscribe,
            MonitorAction::Receive => ActionView::Receive,
            MonitorAction::Decode { .. } => ActionView::Decode,
            MonitorAction::Queue { .. } => ActionView::Queue,
            MonitorAction::Shutdown => ActionView::Shutdown,
            MonitorAction::Nothing => ActionView::Nothing,
        }
    }
}

/// The state of a monitor, as far as its decisions depend on it.
pub struct MonitorView {
    pub phase: MonitorPhase,
    pub state: ConnectionState,
    pub attempt: nat,
    pub config: WebSocketConfig,
}

/// The monitor before its first cycle.
pub open spec fn initial_view(config: WebSocketConfig) -> MonitorView {
    MonitorView { phase: MonitorPhase::Idle, state: ConnectionState::Disconnected, attempt: 0, config }
}

/// Going on after a frame has been dealt with: back to the start of the
/// cycle where a stop is asked for, else on to the next frame.
pub open spec fn resume(view: MonitorView, stop: bool) -> (MonitorView, ActionView) {
    if stop {
        (MonitorView { phase: MonitorPhase::Idle, ..view }, ActionView::Refresh)
    } else {
        (MonitorView { phase: MonitorPhase::Receiving, ..view }, ActionView::Receive)
    }
}

/// Starting over after the connection was lost.
pub open spec fn start_over(view: MonitorView) -> (MonitorView, ActionView) {
    (
        MonitorView {
            phase: MonitorPhase::Idle,
            state: next_state(view.state, ConnectionEvent::Lost),
            ..view
        },
        ActionView::Refresh,
    )
}

/// Seeing to it that there is a connection: none is opened where one is up.
pub open spec fn see_to_connection(view: MonitorView) -> (MonitorView, ActionView) {
    if is_up(view.state) {
        (MonitorView { phase: MonitorPhase::Subscribing, ..view }, ActionView::Subscribe)
    } else if view.state == ConnectionState::Closing {
        (MonitorView { phase: MonitorPhase::Stopped, ..view }, ActionView::Shutdown)
    } else {
        (
            MonitorView {
                phase: MonitorPhase::Connecting,
                state: ConnectionState::Connecting,
                ..view
            },
            ActionView::Connect { timeout_ms: view.config.connection_timeout_ms },
        )
    }
}

/// The state and the action that follow `view` on `event`, with the stop
/// flag as `stop` says.
///
/// Between cycles a stop ends the monitor, an empty list of wallets sends it
/// to sleep for `EMPTY_POLL_MS`, and a list with wallets has it connect and
/// subscribe. A failed handshake is repeated after the delay that the
/// connection's configuration gives, until the session is abandoned; then
/// the cycle starts over after `RECONNECT_PAUSE_MS`. Once subscribed, frames
/// are taken one after another, text is decoded and what it describes is
/// queued, until a stop is asked for or the connection ends; then the cycle
/// starts over. An event that the phase does not wait for starts the cycle
/// over too.
pub open spec fn monitor_next(view: MonitorView, stop: bool, event: EventView) -> (
    MonitorView,
    ActionView,
) {
    match (view.phase, event) {
        (MonitorPhase::Stopped, _) => (view, ActionView::Nothing),
        (MonitorPhase::Idle, EventView::Woke { wallets }) => {
            if stop {
                (
                    MonitorView {
                        phase: MonitorPhase::Stopped,
                        state: ConnectionState::Closing,
                        ..view
                    },
                    ActionView::Shutdown,
                )
            } else if wallets == 0 {
                (view, ActionView::Sleep { delay_ms: EMPTY_POLL_MS })
            } else {
                see_to_connection(view)
            }
        },
        (MonitorPhase::BackingOff, EventView::Woke { .. }) => {
            if stop {
                (
                    MonitorView {
                        phase: MonitorPhase::Stopped,
                        state: ConnectionState::Closing,
                        ..view
                    },
                    ActionView::Shutdown,
                )
            } else {
                see_to_connection(view)
            }
        },
        (MonitorPhase::Connecting, EventView::ConnectFinished { ok }) => {
            if ok {
                let connected = MonitorView {
                    state: next_state(view.state, ConnectionEvent::HandshakeSucceeded),
                    attempt: 0,
                    ..view
                };
                if is_up(connected.state) {
                    (MonitorView { phase: MonitorPhase::Subscribing, ..connected }, ActionView::Subscribe)
                } else {
                    (MonitorView { phase: MonitorPhase::Idle, ..connected }, ActionView::Refresh)
                }
            } else {
                let retry = retry_after_failure(view.config, view.attempt);
                let failed = MonitorView {
                    state: next_state(view.state, ConnectionEvent::Lost),
                    attempt: retry.1,
                    ..view
                };
                match retry.0 {
                    RetryStep::RetryAfter { delay_ms } => (
                        MonitorView { phase: MonitorPhase::BackingOff, ..failed },
                        ActionView::Sleep { delay_ms },
                    ),
                    RetryStep::Abandon => (
                        MonitorView { phase: MonitorPhase::Idle, ..failed },
                        ActionView::Sleep { delay_ms: RECONNECT_PAUSE_MS },
                    ),
                }
            }
        },
        (MonitorPhase::Subscribing, EventView::SubscribeFinished { ok }) => {
            if ok {
                resume(
                    MonitorView {
                        state: next_state(view.state, ConnectionEvent::SubscribeSucceeded),
                        attempt: 0,
                        ..view
                    },
                    stop,
                )
            } else {
                start_over(view)
            }
        },
        (MonitorPhase::Receiving, EventView::ReceivedText) => (
            MonitorView { phase: MonitorPhase::Decoding, ..view },
            ActionView::Decode,
        ),
        (MonitorPhase::Receiving, EventView::ReceivedOther) => resume(view, stop),
        (MonitorPhase::Receiving, EventView::ReceivedClose) => start_over(view),
        (MonitorPhase::Receiving, EventView::ReceivedEnd) => start_over(view),
        (MonitorPhase::Receiving, EventView::ReceivedFailure) => start_over(view),
        (MonitorPhase::Decoding, EventView::Decoded { found }) => {
            if found {
                (MonitorView { phase: MonitorPhase::Queueing, ..view }, ActionView::Queue)
            } else {
                resume(view, stop)
            }
        },
        (MonitorPhase::Decoding, EventView::DecodeFailed) => resume(view, stop),
        (MonitorPhase::Queueing, EventView::Queued { .. }) => resume(view, stop),
        (_, _) => (MonitorView { phase: MonitorPhase::Idle, ..view }, ActionView::Refresh),
    }
}

/// The actions of a monitor that starts in `view` and hears of `steps`, each
/// the stop flag and an event, one after another.
pub open spec fn actions_of(view: MonitorView, steps: Seq<(bool, EventView)>) -> Seq<ActionView>
    decreases steps.len(),
{
    if steps.len() == 0 {
        Seq::empty()
    } else {
        let next = monitor_next(view, steps[0].0, steps[0].1);
        seq![next.1] + actions_of(next.0, steps.skip(1))
    }
}

/// Whether no step brings a list with a wallet in it.
pub open spec fn no_wallet_seen(steps: Seq<(bool, EventView)>) -> bool {
    forall|i: int|
        0 <= i < steps.len() ==> (#[trigger] steps[i].1 matches EventView::Woke { wallets }
            ==> wallets == 0)
}

/// Whether no step asks for a stop.
pub open spec fn no_stop_asked(steps: Seq<(bool, EventView)>) -> bool {
    forall|i: int| 0 <= i < steps.len() ==> !(#[trigger] steps[i]).0
}

/// As long as no wallet is tracked, a monitor never connects and never
/// subscribes, whatever it hears of; and as long as no stop is asked for
/// either, it answers every waking by sleeping for `EMPTY_POLL_MS`.
pub proof fn lemma_no_wallets_no_connection(config: WebSocketConfig, steps: Seq<(bool, EventView)>)
    requires
        no_wallet_seen(steps),
    ensures
        actions_of(initial_view(config), steps).len() == steps.len(),
        forall|i: int|
            0 <= i < steps.len() ==> !(#[trigger] actions_of(initial_view(config), steps)[i]
                is Connect) && !(actions_of(initial_view(config), steps)[i] is Subscribe),
        no_stop_asked(steps) ==> forall|i: int|
            0 <= i < steps.len() && steps[i].1 is Woke ==> #[trigger] actions_of(
                initial_view(config),
                steps,
            )[i] == (ActionView::Sleep { delay_ms: EMPTY_POLL_MS }),
{
    lemma_resting_monitor_stays_at_rest(initial_view(config), steps);
}

/// The induction behind [`lemma_no_wallets_no_connection`]: a monitor that is
/// between cycles or stopped stays so while no wallet is tracked.
proof fn lemma_resting_monitor_stays_at_rest(view: MonitorView, steps: Seq<(bool, EventView)>)
    requires
        no_wallet_seen(steps),
        view.phase == MonitorPhase::Idle || view.phase == MonitorPhase::Stopped,
    ensures
        actions_of(view, steps).len() == steps.len(),
        forall|i: int|
            0 <= i < steps.len() ==> !(#[trigger] actions_of(view, steps)[i] is Connect) && !(
            actions_of(view, steps)[i] is Subscribe),
        no_stop_asked(steps) && view.phase == MonitorPhase::Idle ==> forall|i: int|
            0 <= i < steps.len() && steps[i].1 is Woke ==> #[trigger] actions_of(view, steps)[i]
                == (ActionView::Sleep { delay_ms: EMPTY_POLL_MS }),
    decreases steps.len(),
{
    if steps.len() > 0 {
        let next = monitor_next(view, steps[0].0, steps[0].1);
        let rest = steps.skip(1);
        assert(steps[0].1 matches EventView::Woke { wallets } ==> wallets == 0);
        assert(next.0.phase == MonitorPhase::Idle || next.0.phase == MonitorPhase::Stopped);
        assert forall|i: int| 0 <= i < rest.len() implies (#[trigger] rest[i].1 matches EventView::Woke {
            wallets,
        } ==> wallets == 0) by {
            assert(rest[i] == steps[i + 1]);
        }
        lemma_resting_monitor_stays_at_rest(next.0, rest);
        let later = actions_of(next.0, rest);
        let all = actions_of(view, steps);
        assert(all == seq![next.1] + later);
        assert forall|i: int| 0 <= i < steps.len() implies !(#[trigger] all[i] is Connect) && !(all[i]
            is Subscribe) by {
            if i > 0 {
                assert(all[i] == later[i - 1]);
            }
        }
        if no_stop_asked(steps) && view.phase == MonitorPhase::Idle {
            assert(!steps[0].0);
            assert(next.0.phase == MonitorPhase::Idle);
            assert forall|i: int| 0 <= i < rest.len() implies !(#[trigger] rest[i]).0 by {
                assert(rest[i] == steps[i + 1]);
            }
            assert forall|i: int| 0 <= i < steps.len() && steps[i].1 is Woke implies #[trigger] all[i]
                == (ActionView::Sleep { delay_ms: EMPTY_POLL_MS }) by {
                if i > 0 {
                    assert(all[i] == later[i - 1]);
                    assert(rest[i - 1] == steps[i]);
                }
            }
        }
    }
}

/// Whether the event fits the phase.
pub open spec fn is_awaited(phase: MonitorPhase, event: EventView) -> bool {
    match (phase, event) {
        (MonitorPhase::Stopped, _) => true,
        (MonitorPhase::Idle, EventView::Woke { .. }) => true,
        (MonitorPhase::BackingOff, EventView::Woke { .. }) => true,
        (MonitorPhase::Connecting, EventView::ConnectFinished { .. }) => true,
        (MonitorPhase::Subscribing, EventView::SubscribeFinished { .. }) => true,
        (MonitorPhase::Receiving, EventView::ReceivedText) => true,
        (MonitorPhase::Receiving, EventView::ReceivedOther) => true,
        (MonitorPhase::Receiving, EventView::ReceivedClose) => true,
        (MonitorPhase::Receiving, EventView::ReceivedEnd) => true,
        (MonitorPhase::Receiving, EventView::ReceivedFailure) => true,
        (MonitorPhase::Decoding, EventView::Decoded { .. }) => true,
        (MonitorPhase::Decoding, EventView::DecodeFailed) => true,
        (MonitorPhase::Queueing, EventView::Queued { .. }) => true,
        (_, _) => false,
    }
}

/// Whether `report` is what is made known when a monitor in `phase` hears of
/// `event`: the error of a session of handshakes that was abandoned, of a
/// subscription that failed, of a transport that failed; the trouble with a
/// frame that could not be decoded or queued; the mismatch of an event that
/// the phase does not wait for; and nothing else.
pub open spec fn is_report_for(
    report: Option<AppError>,
    phase: MonitorPhase,
    event: MonitorEvent,
    abandoned: bool,
) -> bool {
    if phase == MonitorPhase::Stopped {
        report is None
    } else if !is_awaited(phase, event@) {
        report matches Some(AppError::WebSocketStateError(why)) && why@
            == "Event does not fit the monitor's phase"@
    } else {
        match event {
            MonitorEvent::ConnectFinished(Err(error)) => if abandoned {
                report == Some(error)
            } else {
                report is None
            },
            MonitorEvent::SubscribeFinished(Err(error)) => report == Some(error),
            MonitorEvent::FrameReceived(Received::Failed(error)) => report == Some(error),
            MonitorEvent::Decoded(Err(cause)) => report matches Some(AppError::WebSocketError(why))
                && why@ == "Failed to process message: "@ + cause@,
            MonitorEvent::Queued(Err(cause)) => report matches Some(
                AppError::MessageProcessingError(why),
            ) && why@ == "Failed to queue message: "@ + cause@,
            _ => report is None,
        }
    }
}

/// Whether `action` carries what belongs to it: a subscription the addresses
/// on record, a decoding the text of the frame, a queueing the trade that
/// was decoded.
pub open spec fn carries_payload(action: MonitorAction, event: MonitorEvent, addresses: Seq<String>) -> bool {
    match action {
        MonitorAction::Subscribe { addresses: sent } => sent@ == addresses,
        MonitorAction::Decode { text } => event matches MonitorEvent::FrameReceived(
            Received::Text(received),
        ) && text == received,
        MonitorAction::Queue { trade } => event matches MonitorEvent::Decoded(Ok(Some(decoded)))
            && trade == decoded,
        _ => true,
    }
}

/// The watch on the feed.
#[derive(Debug)]
pub struct FeedMonitor {
    connection: WebSocketConnectionManager,
    phase: MonitorPhase,
    addresses: Vec<String>,
}

impl View for FeedMonitor {
    type V = MonitorView;

    closed spec fn view(&self) -> MonitorView {
        MonitorView {
            phase: self.phase,
            state: self.connection.state_of(),
            attempt: self.connection.attempt_of(),
            config: self.connection.config_of(),
        }
    }
}

impl FeedMonitor {
    /// The addresses on record: those of the wallets that the last cycle
    /// began with.
    pub closed spec fn addresses_of(self) -> Seq<String> {
        self.addresses@
    }

    /// The address of the feed.
    pub closed spec fn url_of(self) -> Seq<char> {
        self.connection.url_of()
    }

    /// A monitor of the feed at `url`, before its first cycle.
    pub fn new(url: String, config: WebSocketConfig) -> (monitor: Self)
        ensures
            monitor@ == initial_view(config),
            monitor.url_of() == url@,
            monitor.addresses_of().len() == 0,
    {
        FeedMonitor {
            connection: WebSocketConnectionManager::new(url, Some(config)),
            phase: MonitorPhase::Idle,
            addresses: Vec::new(),
        }
    }

    /// The phase of the monitor.
    pub fn phase(&self) -> (phase: MonitorPhase)
        ensures
            phase == self@.phase,
    {
        self.phase
    }

    /// The state of the connection.
    pub fn connection_state(&self) -> (state: ConnectionState)
        ensures
            state == self@.state,
    {
        self.connection.state()
    }

    /// The address of the feed.
    pub fn url(&self) -> (url: &String)
        ensures
            url@ == self.url_of(),
    {
        self.connection.url()
    }

    fn copy_of_addresses(&self) -> (copy: Vec<String>)
        ensures
            copy@ == self.addresses@,
    {
        let mut copy: Vec<String> = Vec::new();
        let mut taken: usize = 0;
        while taken < self.addresses.len()
            invariant
                taken <= self.addresses@.len(),
                copy@ == self.addresses@.subrange(0, taken as int),
            decreases self.addresses@.len() - taken,
        {
            copy.push(self.addresses[taken].clone());
            assert(self.addresses@.subrange(0, taken + 1) =~= self.addresses@.subrange(
                0,
                taken as int,
            ).push(self.addresses@[taken as int]));
            taken = taken + 1;
        }
        assert(self.addresses@.subrange(0, taken as int) =~= self.addresses@);
        copy
    }

    fn stop(&mut self) -> (action: MonitorAction)
        ensures
            final(self)@ == (MonitorView {
                phase: MonitorPhase::Stopped,
                state: ConnectionState::Closing,
                ..old(self)@
            }),
            final(self).addresses_of() == old(self).addresses_of(),
            final(self).url_of() == old(self).url_of(),
            action is Shutdown,
    {
        self.connection.shutdown();
        self.phase = MonitorPhase::Stopped;
        MonitorAction::Shutdown
    }

    fn see_to_connection(&mut self) -> (action: MonitorAction)
        ensures
            (final(self)@, action@) == see_to_connection(old(self)@),
            final(self).addresses_of() == old(self).addresses_of(),
            final(self).url_of() == old(self).url_of(),
            action matches MonitorAction::Subscribe { addresses } ==> addresses@ == old(
                self,
            ).addresses_of(),
    {
        match self.connection.ensure_connection() {
            ConnectStep::AlreadyConnected => {
                self.phase = MonitorPhase::Subscribing;
                MonitorAction::Subscribe { addresses: self.copy_of_addresses() }
            },
            ConnectStep::Closed => {
                self.phase = MonitorPhase::Stopped;
                MonitorAction::Shutdown
            },
            ConnectStep::Connect { timeout_ms } => {
                self.phase = MonitorPhase::Connecting;
                MonitorAction::Connect { timeout_ms }
            },
        }
    }

    fn resume(&mut self, stop: bool) -> (action: MonitorAction)
        ensures
            (final(self)@, action@) == resume(old(self)@, stop),
            final(self).addresses_of() == old(self).addresses_of(),
            final(self).url_of() == old(self).url_of(),
    {
        if stop {
            self.phase = MonitorPhase::Idle;
            MonitorAction::Refresh
        } else {
            self.phase = MonitorPhase::Receiving;
            MonitorAction::Receive
        }
    }

    fn start_over(&mut self) -> (action: MonitorAction)
        ensures
            (final(self)@, action@) == start_over(old(self)@),
            final(self).addresses_of() == old(self).addresses_of(),
            final(self).url_of() == old(self).url_of(),
    {
        self.connection.connection_lost();
        self.phase = MonitorPhase::Idle;
        MonitorAction::Refresh
    }

    fn mismatch(&mut self) -> (output: MonitorOutput)
        ensures
            final(self)@ == (MonitorView { phase: MonitorPhase::Idle, ..old(self)@ }),
            final(self).addresses_of() == old(self).addresses_of(),
            final(self).url_of() == old(self).url_of(),
            output.action is Refresh,
            output.report matches Some(AppError::WebSocketStateError(why)) && why@
                == "Event does not fit the monitor's phase"@,
    {
        self.phase = MonitorPhase::Idle;
        MonitorOutput {
            action: MonitorAction::Refresh,
            report: Some(
                AppError::WebSocketStateError(
                    String::from_str("Event does not fit the monitor's phase"),
                ),
            ),
        }
    }

    /// Takes what the runner reports, with the stop flag as it stands, and
    /// says what to do next and what error, if any, to make known.
    pub fn step(&mut self, stop: bool, event: MonitorEvent) -> (output: MonitorOutput)
        ensures
            (final(self)@, output.action@) == monitor_next(old(self)@, stop, event@),
            final(self).url_of() == old(self).url_of(),
            final(self).addresses_of() == match event {
                MonitorEvent::Woke { addresses } => if old(self)@.phase == MonitorPhase::Idle && !stop
                    && addresses@.len() > 0 {
                    addresses@
                } else {
                    old(self).addresses_of()
                },
                _ => old(self).addresses_of(),
            },
            carries_payload(output.action, event, final(self).addresses_of()),
            is_report_for(
                output.report,
                old(self)@.phase,
                event,
                retry_after_failure(old(self)@.config, old(self)@.attempt).0 is Abandon,
            ),
    {
        match self.phase {
            MonitorPhase::Stopped => MonitorOutput { action: MonitorAction::Nothing, report: None },
            MonitorPhase::Idle => match event {
                MonitorEvent::Woke { addresses } => {
                    if stop {
                        MonitorOutput { action: self.stop(), report: None }
                    } else if addresses.len() == 0 {
                        MonitorOutput {
                            action: MonitorAction::Sleep { delay_ms: EMPTY_POLL_MS },
                            report: None,
                        }
                    } else {
                        self.addresses = addresses;
                        MonitorOutput { action: self.see_to_connection(), report: None }
                    }
                },
                _ => self.mismatch(),
            },
            MonitorPhase::BackingOff => match event {
                MonitorEvent::Woke { .. } => {
                    if stop {
                        MonitorOutput { action: self.stop(), report: None }
                    } else {
                        MonitorOutput { action: self.see_to_connection(), report: None }
                    }
                },
                _ => self.mismatch(),
            },
            MonitorPhase::Connecting => match event {
                MonitorEvent::ConnectFinished(Ok(())) => {
                    self.connection.handshake_succeeded();
                    match self.connection.subscribe() {
                        Ok(()) => {
                            self.phase = MonitorPhase::Subscribing;
                            MonitorOutput {
                                action: MonitorAction::Subscribe {
                                    addresses: self.copy_of_addresses(),
                                },
                                report: None,
                            }
                        },
                        Err(_) => {
                            self.phase = MonitorPhase::Idle;
                            MonitorOutput { action: MonitorAction::Refresh, report: None }
                        },
                    }
                },
                MonitorEvent::ConnectFinished(Err(error)) => {
                    match self.connection.attempt_failed() {
                        RetryStep::RetryAfter { delay_ms } => {
                            self.phase = MonitorPhase::BackingOff;
                            MonitorOutput { action: MonitorAction::Sleep { delay_ms }, report: None }
                        },
                        RetryStep::Abandon => {
                            self.phase = MonitorPhase::Idle;
                            MonitorOutput {
                                action: MonitorAction::Sleep { delay_ms: RECONNECT_PAUSE_MS },
                                report: Some(error),
                            }
                        },
                    }
                },
                _ => self.mismatch(),
            },
            MonitorPhase::Subscribing => match event {
                MonitorEvent::SubscribeFinished(Ok(())) => {
                    self.connection.subscribe_succeeded();
                    MonitorOutput { action: self.resume(stop), report: None }
                },
                MonitorEvent::SubscribeFinished(Err(error)) => MonitorOutput {
                    action: self.start_over(),
                    report: Some(error),
                },
                _ => self.mismatch(),
            },
            MonitorPhase::Receiving => match event {
                MonitorEvent::FrameReceived(Received::Text(text)) => {
                    self.phase = MonitorPhase::Decoding;
                    MonitorOutput { action: MonitorAction::Decode { text }, report: None }
                },
                MonitorEvent::FrameReceived(Received::Other) => MonitorOutput {
                    action: self.resume(stop),
                    report: None,
                },
                MonitorEvent::FrameReceived(Received::Close) => MonitorOutput {
                    action: self.start_over(),
                    report: None,
                },
                MonitorEvent::FrameReceived(Received::Ended) => MonitorOutput {
                    action: self.start_over(),
                    report: None,
                },
                MonitorEvent::FrameReceived(Received::Failed(error)) => MonitorOutput {
                    action: self.start_over(),
                    report: Some(error),
                },
                _ => self.mismatch(),
            },
            MonitorPhase::Decoding => match event {
                MonitorEvent::Decoded(Ok(Some(trade))) => {
                    self.phase = MonitorPhase::Queueing;
                    MonitorOutput { action: MonitorAction::Queue { trade }, report: None }
                },
                MonitorEvent::Decoded(Ok(None)) => MonitorOutput {
                    action: self.resume(stop),
                    report: None,
                },
                MonitorEvent::Decoded(Err(cause)) => MonitorOutput {
                    action: self.resume(stop),
                    report: Some(
                        AppError::WebSocketError(labelled("Failed to process message: ", &cause)),
                    ),
                },
                _ => self.mismatch(),
            },
            MonitorPhase::Queueing => match event {
                MonitorEvent::Queued(Ok(())) => MonitorOutput {
                    action: self.resume(stop),
                    report: None,
                },
                MonitorEvent::Queued(Err(cause)) => MonitorOutput {
                    action: self.resume(stop),
                    report: Some(
                        AppError::MessageProcessingError(
                            labelled("Failed to queue message: ", &cause),
                        ),
                    ),
                },
                _ => self.mismatch(),
            },
        }
    }
}

} // verus!
