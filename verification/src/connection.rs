//! The connection to the feed: its states, its configuration, and the delay
//! between attempts to restore it.
//!
//! The manager here holds the state and decides; it opens no socket. Whoever
//! owns the socket tells the manager what happened and does what the manager
//! answers.

use crate::arith::{lemma_pow2_grows, pow2};
use crate::error::AppError;
use vstd::prelude::*;
use vstd::string::StringExecFns;

verus! {

/// Where the connection stands.
#[derive(Debug, Clone, Copy, PartialEq, Eq, Structural)]
pub enum ConnectionState {
    Disconnected,
    Connecting,
    Connected,
    Subscribed,
    Closing,
}

/// What can happen to the connection.
#[derive(Debug, Clone, Copy, PartialEq, Eq, Structural)]
pub enum ConnectionEvent {
    ConnectRequested,
    HandshakeSucceeded,
    SubscribeSucceeded,
    Lost,
    ShutdownRequested,
}

/// The state that follows `state` on `event`. Connecting leads from
/// `Disconnected` over `Connecting` and `Connected` to `Subscribed`; a loss
/// leads back to `Disconnected`; a shutdown leads to `Closing`, which nothing
/// leaves. An event that does not fit the state changes nothing.
pub open spec fn next_state(state: ConnectionState, event: ConnectionEvent) -> ConnectionState {
    match (state, event) {
        (ConnectionState::Closing, _) => ConnectionState::Closing,
        (_, ConnectionEvent::ShutdownRequested) => ConnectionState::Closing,
        (_, ConnectionEvent::Lost) => ConnectionState::Disconnected,
        (ConnectionState::Disconnected, ConnectionEvent::ConnectRequested) => ConnectionState::Connecting,
        (ConnectionState::Connecting, ConnectionEvent::HandshakeSucceeded) => ConnectionState::Connected,
        (ConnectionState::Connected, ConnectionEvent::SubscribeSucceeded) => ConnectionState::Subscribed,
        (unchanged, _) => unchanged,
    }
}

/// Computes [`next_state`].
pub fn advance(state: ConnectionState, event: ConnectionEvent) -> (next: ConnectionState)
    ensures
        next == next_state(state, event),
{
    match (state, event) {
        (ConnectionState::Closing, _) => ConnectionState::Closing,
        (_, ConnectionEvent::ShutdownRequested) => ConnectionState::Closing,
        (_, ConnectionEvent::Lost) => ConnectionState::Disconnected,
        (ConnectionState::Disconnected, ConnectionEvent::ConnectRequested) => ConnectionState::Connecting,
        (ConnectionState::Connecting, ConnectionEvent::HandshakeSucceeded) => ConnectionState::Connected,
        (ConnectionState::Connected, ConnectionEvent::SubscribeSucceeded) => ConnectionState::Subscribed,
        (unchanged, _) => unchanged,
    }
}

/// Whether the connection is up in `state`.
pub open spec fn is_up(state: ConnectionState) -> bool {
    state == ConnectionState::Connected || state == ConnectionState::Subscribed
}

/// `Closing` is final: no event leads out of it.
pub proof fn lemma_closing_is_final(event: ConnectionEvent)
    ensures
        next_state(ConnectionState::Closing, event) == ConnectionState::Closing,
{
}

/// From every state but `Closing`, a loss leads to `Disconnected`, and from
/// there the three steps of connecting lead to `Subscribed`.
pub proof fn lemma_connection_recovers(state: ConnectionState)
    requires
        state != ConnectionState::Closing,
    ensures
        next_state(state, ConnectionEvent::Lost) == ConnectionState::Disconnected,
        next_state(
            next_state(
                next_state(ConnectionState::Disconnected, ConnectionEvent::ConnectRequested),
                ConnectionEvent::HandshakeSucceeded,
            ),
            ConnectionEvent::SubscribeSucceeded,
        ) == ConnectionState::Subscribed,
{
}

/// The delay before attempt number `attempt` (counted from 0) is repeated:
/// the initial delay doubled `attempt` times, and no more than `max`.
pub open spec fn backoff_delay(initial: nat, max: nat, attempt: nat) -> nat {
    if initial * pow2(attempt) <= max {
        initial * pow2(attempt)
    } else {
        max
    }
}

/// The delay never exceeds the cap and never shrinks from one attempt to
/// the next.
pub proof fn lemma_backoff_is_capped_and_grows(initial: nat, max: nat, attempt: nat)
    ensures
        backoff_delay(initial, max, attempt) <= max,
        backoff_delay(initial, max, attempt) <= backoff_delay(initial, max, attempt + 1),
{
    lemma_pow2_grows(attempt, attempt + 1);
    assert(initial * pow2(attempt) <= initial * pow2(attempt + 1)) by (nonlinear_arith)
        requires
            pow2(attempt) <= pow2(attempt + 1),
    ;
}

/// How the connection to the feed is kept: all times in milliseconds.
#[derive(Debug, Clone, Copy, PartialEq, Eq, Structural)]
pub struct WebSocketConfig {
    pub health_check_interval_ms: u64,
    pub connection_timeout_ms: u64,
    pub initial_backoff_ms: u64,
    pub max_backoff_ms: u64,
    pub max_retries: u32,
}

impl Default for WebSocketConfig {
    /// A health check every 30 s, 5 s to connect, delays from 1 s to 60 s,
    /// three attempts to a session.
    fn default() -> (config: Self)
        ensures
            config.health_check_interval_ms == 30_000,
            config.connection_timeout_ms == 5_000,
            config.initial_backoff_ms == 1_000,
            config.max_backoff_ms == 60_000,
            config.max_retries == 3,
    {
        WebSocketConfig {
            health_check_interval_ms: 30_000,
            connection_timeout_ms: 5_000,
            initial_backoff_ms: 1_000,
            max_backoff_ms: 60_000,
            max_retries: 3,
        }
    }
}

impl WebSocketConfig {
    /// The delay of the configuration before attempt `attempt` is repeated.
    pub open spec fn delay(self, attempt: nat) -> nat {
        backoff_delay(self.initial_backoff_ms as nat, self.max_backoff_ms as nat, attempt)
    }

    /// The delay in milliseconds before attempt number `attempt` (counted
    /// from 0) is repeated.
    pub fn backoff(&self, attempt: u32) -> (delay_ms: u64)
        ensures
            delay_ms == self.delay(attempt as nat),
    {
        let initial: u64 = self.initial_backoff_ms;
        let max: u64 = self.max_backoff_ms;
        if initial == 0 {
            assert(0 * pow2(attempt as nat) == 0) by (nonlinear_arith);
            return 0;
        }
        if initial > max {
            proof {
                lemma_pow2_grows(0, attempt as nat);
                assert(initial * pow2(attempt as nat) >= initial) by (nonlinear_arith)
                    requires
                        pow2(attempt as nat) >= 1,
                ;
            }
            return max;
        }
        let mut delay: u64 = initial;
        let mut doubled: u32 = 0;
        assert(initial * pow2(0) == initial) by (nonlinear_arith)
            requires
                pow2(0) == 1,
        ;
        while doubled < attempt
            invariant
                doubled <= attempt,
                initial == self.initial_backoff_ms,
                max == self.max_backoff_ms,
                initial >= 1,
                delay == initial * pow2(doubled as nat),
                delay <= max,
            decreases attempt - doubled,
        {
            if delay > max - delay {
                proof {
                    lemma_pow2_grows((doubled + 1) as nat, attempt as nat);
                    assert(initial * pow2(attempt as nat) >= 2 * (initial * pow2(doubled as nat)))
                        by (nonlinear_arith)
                        requires
                            pow2(attempt as nat) >= pow2((doubled + 1) as nat),
                            pow2((doubled + 1) as nat) == 2 * pow2(doubled as nat),
                            initial >= 1,
                    ;
                }
                return max;
            }
            assert(initial * pow2((doubled + 1) as nat) == 2 * (initial * pow2(doubled as nat)))
                by (nonlinear_arith)
                requires
                    pow2((doubled + 1) as nat) == 2 * pow2(doubled as nat),
            ;
            delay = delay + delay;
            doubled = doubled + 1;
        }
        delay
    }
}

/// What to do in order to have a connection.
#[derive(Debug, Clone, Copy, PartialEq, Eq, Structural)]
pub enum ConnectStep {
    /// The connection is up: nothing to do.
    AlreadyConnected,
    /// Open the socket, and give up after `timeout_ms`.
    Connect { timeout_ms: u64 },
    /// The manager was shut down and connects no more.
    Closed,
}

/// What to do after an attempt has failed.
#[derive(Debug, Clone, Copy, PartialEq, Eq, Structural)]
pub enum RetryStep {
    /// Wait, then try again.
    RetryAfter { delay_ms: u64 },
    /// The session has used its attempts: start over from scratch.
    Abandon,
}

/// The step that follows the failure of attempt `attempt`, and the number of
/// the attempt that comes next. The last attempt of a session is followed by
/// none, and the count starts over.
pub open spec fn retry_after_failure(config: WebSocketConfig, attempt: nat) -> (RetryStep, nat) {
    if attempt + 1 < config.max_retries {
        (RetryStep::RetryAfter { delay_ms: config.delay(attempt) as u64 }, attempt + 1)
    } else {
        (RetryStep::Abandon, 0)
    }
}

/// The number of the attempt under way after `failures` attempts in a row
/// have failed, counted from the start of a session.
pub open spec fn attempt_after_failures(config: WebSocketConfig, failures: nat) -> nat
    decreases failures,
{
    if failures == 0 {
        0
    } else {
        retry_after_failure(config, attempt_after_failures(config, (failures - 1) as nat)).1
    }
}

/// A session whose every attempt fails is abandoned at the failure that
/// uses up its attempts and at no earlier one. Before each repetition it
/// waits for the delay of the attempt that failed, and once abandoned it
/// starts counting anew.
pub proof fn lemma_failing_session_is_abandoned(config: WebSocketConfig, failures: nat)
    requires
        failures < config.max_retries,
    ensures
        attempt_after_failures(config, failures) == failures,
        failures + 1 < config.max_retries ==> retry_after_failure(config, failures) == (
            RetryStep::RetryAfter { delay_ms: config.delay(failures) as u64 },
            failures + 1,
        ),
        failures + 1 == config.max_retries ==> retry_after_failure(config, failures) == (
            RetryStep::Abandon,
            0nat,
        ) && attempt_after_failures(config, failures + 1) == 0,
    decreases failures,
{
    if failures > 0 {
        lemma_failing_session_is_abandoned(config, (failures - 1) as nat);
    }
}

/// The state of one connection to the feed.
#[derive(Debug)]
pub struct WebSocketConnectionManager {
    url: String,
    config: WebSocketConfig,
    state: ConnectionState,
    attempt: u32,
}

impl WebSocketConnectionManager {
    /// The address of the feed.
    pub closed spec fn url_of(self) -> Seq<char> {
        self.url@
    }

    /// The configuration.
    pub closed spec fn config_of(self) -> WebSocketConfig {
        self.config
    }

    /// The state of the connection.
    pub closed spec fn state_of(self) -> ConnectionState {
        self.state
    }

    /// The number of the attempt under way, counted from 0 since the last
    /// success.
    pub closed spec fn attempt_of(self) -> nat {
        self.attempt as nat
    }

    /// A manager for the feed at `url`, disconnected, with `config` or, for
    /// want of one, the default configuration.
    pub fn new(url: String, config: Option<WebSocketConfig>) -> (manager: Self)
        ensures
            manager.url_of() == url@,
            manager.state_of() == ConnectionState::Disconnected,
            manager.attempt_of() == 0,
            config matches Some(given) ==> manager.config_of() == given,
            config is None ==> manager.config_of().health_check_interval_ms == 30_000
                && manager.config_of().connection_timeout_ms == 5_000
                && manager.config_of().initial_backoff_ms == 1_000
                && manager.config_of().max_backoff_ms == 60_000 && manager.config_of().max_retries
                == 3,
    {
        let config = match config {
            Some(given) => given,
            None => WebSocketConfig::default(),
        };
        WebSocketConnectionManager { url, config, state: ConnectionState::Disconnected, attempt: 0 }
    }

    /// The address of the feed.
    pub fn url(&self) -> (url: &String)
        ensures
            url@ == self.url_of(),
    {
        &self.url
    }

    /// The configuration.
    pub fn config(&self) -> (config: WebSocketConfig)
        ensures
            config == self.config_of(),
    {
        self.config
    }

    /// The state of the connection.
    pub fn state(&self) -> (state: ConnectionState)
        ensures
            state == self.state_of(),
    {
        self.state
    }

    /// The number of the attempt under way.
    pub fn attempt(&self) -> (attempt: u32)
        ensures
            attempt == self.attempt_of(),
    {
        self.attempt
    }

    /// Says what is needed to have a connection. With the connection up
    /// nothing is, and nothing changes; otherwise the socket is to be opened
    /// within the configured time, and the state becomes `Connecting`. Asking
    /// again changes nothing more.
    pub fn ensure_connection(&mut self) -> (step: ConnectStep)
        ensures
            final(self).url_of() == old(self).url_of(),
            final(self).config_of() == old(self).config_of(),
            final(self).attempt_of() == old(self).attempt_of(),
            is_up(old(self).state_of()) ==> step == ConnectStep::AlreadyConnected && final(self).state_of() == old(self).state_of(),
            old(self).state_of() == ConnectionState::Closing ==> step == ConnectStep::Closed
                && final(self).state_of() == ConnectionState::Closing,
            !is_up(old(self).state_of()) && old(self).state_of() != ConnectionState::Closing ==> step
                == (ConnectStep::Connect { timeout_ms: old(self).config_of().connection_timeout_ms })
                && final(self).state_of() == ConnectionState::Connecting,
    {
        match self.state {
            ConnectionState::Connected | ConnectionState::Subscribed => ConnectStep::AlreadyConnected,
            ConnectionState::Closing => ConnectStep::Closed,
            ConnectionState::Disconnected | ConnectionState::Connecting => {
                self.state = ConnectionState::Connecting;
                ConnectStep::Connect { timeout_ms: self.config.connection_timeout_ms }
            },
        }
    }

    /// Notes that the handshake succeeded: the attempts are counted anew.
    pub fn handshake_succeeded(&mut self)
        ensures
            final(self).url_of() == old(self).url_of(),
            final(self).config_of() == old(self).config_of(),
            final(self).state_of() == next_state(
                old(self).state_of(),
                ConnectionEvent::HandshakeSucceeded,
            ),
            final(self).attempt_of() == 0,
    {
        self.state = advance(self.state, ConnectionEvent::HandshakeSucceeded);
        self.attempt = 0;
    }

    /// Checks that a subscription can be sent: the connection must be up.
    pub fn subscribe(&self) -> (ready: Result<(), AppError>)
        ensures
            is_up(self.state_of()) ==> ready is Ok,
            !is_up(self.state_of()) ==> (ready matches Err(AppError::WebSocketStateError(why))
                && why@ == "Cannot subscribe: not connected"@),
    {
        match self.state {
            ConnectionState::Connected | ConnectionState::Subscribed => Ok(()),
            _ => Err(
                AppError::WebSocketStateError(String::from_str("Cannot subscribe: not connected")),
            ),
        }
    }

    /// Notes that the feed took the subscription: the attempts are counted
    /// anew.
    pub fn subscribe_succeeded(&mut self)
        ensures
            final(self).url_of() == old(self).url_of(),
            final(self).config_of() == old(self).config_of(),
            final(self).state_of() == next_state(
                old(self).state_of(),
                ConnectionEvent::SubscribeSucceeded,
            ),
            final(self).attempt_of() == 0,
    {
        self.state = advance(self.state, ConnectionEvent::SubscribeSucceeded);
        self.attempt = 0;
    }

    /// Notes that the connection was lost or closed by the other side.
    pub fn connection_lost(&mut self)
        ensures
            final(self).url_of() == old(self).url_of(),
            final(self).config_of() == old(self).config_of(),
            final(self).attempt_of() == old(self).attempt_of(),
            final(self).state_of() == next_state(old(self).state_of(), ConnectionEvent::Lost),
    {
        self.state = advance(self.state, ConnectionEvent::Lost);
    }

    /// Notes that an attempt to connect or to subscribe failed, and says
    /// whether to try again and after what delay.
    pub fn attempt_failed(&mut self) -> (step: RetryStep)
        ensures
            final(self).url_of() == old(self).url_of(),
            final(self).config_of() == old(self).config_of(),
            final(self).state_of() == next_state(old(self).state_of(), ConnectionEvent::Lost),
            (step, final(self).attempt_of()) == retry_after_failure(
                old(self).config_of(),
                old(self).attempt_of(),
            ),
    {
        self.state = advance(self.state, ConnectionEvent::Lost);
        if self.attempt < u32::MAX && self.attempt + 1 < self.config.max_retries {
            let delay_ms = self.config.backoff(self.attempt);
            self.attempt = self.attempt + 1;
            RetryStep::RetryAfter { delay_ms }
        } else {
            self.attempt = 0;
            RetryStep::Abandon
        }
    }

    /// Begins the shutdown: from now on the manager connects no more.
    pub fn shutdown(&mut self)
        ensures
            final(self).url_of() == old(self).url_of(),
            final(self).config_of() == old(self).config_of(),
            final(self).attempt_of() == old(self).attempt_of(),
            final(self).state_of() == ConnectionState::Closing,
    {
        self.state = ConnectionState::Closing;
    }
}

} // verus!
