//! The decisions of the broker connection's lifecycle loop: connection
//! state, reconnect backoff, and the readiness wait.
use crate::config::Config;
use crate::models::{decimal, push_decimal};
use vstd::prelude::*;
use vstd::string::*;

verus! {

/// The first reconnect delay, in seconds.
pub const MIN_BACKOFF_SECS: u64 = 1;

/// The longest reconnect delay, in seconds.
pub const MAX_BACKOFF_SECS: u64 = 30;

/// How long a startup readiness wait lasts at most, in milliseconds.
pub const READY_TIMEOUT_MS: u64 = 10000;

/// Where the publish session stands.
#[derive(Debug, Clone, Copy, PartialEq, Eq, Structural)]
pub enum ConnectionState {
    Disconnected,
    Connecting,
    Connected,
}

/// What the transport reported, as far as the lifecycle loop cares.
#[derive(Debug, Clone, Copy, PartialEq, Eq, Structural)]
pub enum ConnectionEvent {
    /// The broker acknowledged the session.
    ConnAck,
    /// The broker closed the session.
    Disconnect,
    /// The transport failed; `aborted` tells a connection abort from other
    /// failures, for the log only.
    Error { aborted: bool },
    /// Any other packet.
    Other,
}

/// What the lifecycle loop does next.
#[derive(Debug, Clone, Copy, PartialEq, Eq, Structural)]
pub enum ConnectionAction {
    /// Keep waiting for events on the current session.
    Continue,
    /// Sleep `delay_secs`, then open a new session with a fresh identifier.
    Reconnect { delay_secs: u64 },
}

/// Two to the power `n`.
pub open spec fn pow2(n: nat) -> nat
    decreases n,
{
    if n == 0 {
        1
    } else {
        2 * pow2((n - 1) as nat)
    }
}

/// The delay that follows `d`: doubled, but never beyond the maximum.
pub open spec fn next_delay(d: nat) -> nat {
    if 2 * d <= MAX_BACKOFF_SECS {
        2 * d
    } else {
        MAX_BACKOFF_SECS as nat
    }
}

/// The delay before the retry after `n` earlier consecutive failures.
pub open spec fn delay_after(n: nat) -> nat {
    if MIN_BACKOFF_SECS * pow2(n) <= MAX_BACKOFF_SECS {
        (MIN_BACKOFF_SECS * pow2(n)) as nat
    } else {
        MAX_BACKOFF_SECS as nat
    }
}

/// One step of the lifecycle: the state and delay after `e`, and the action.
pub open spec fn lifecycle_step(s: (ConnectionState, nat), e: ConnectionEvent) -> ((
    ConnectionState,
    nat,
), ConnectionAction) {
    match e {
        ConnectionEvent::ConnAck => (
            (ConnectionState::Connected, MIN_BACKOFF_SECS as nat),
            ConnectionAction::Continue,
        ),
        ConnectionEvent::Disconnect | ConnectionEvent::Error { .. } => (
            (ConnectionState::Disconnected, next_delay(s.1)),
            ConnectionAction::Reconnect { delay_secs: s.1 as u64 },
        ),
        ConnectionEvent::Other => (s, ConnectionAction::Continue),
    }
}

/// The lifecycle after `n` consecutive failures, starting from `s`.
pub open spec fn after_failures(s: (ConnectionState, nat), n: nat) -> (ConnectionState, nat)
    decreases n,
{
    if n == 0 {
        s
    } else {
        lifecycle_step(after_failures(s, (n - 1) as nat), ConnectionEvent::Error { aborted: false }).0
    }
}

/// The connection state and the reconnect delay, owned by the lifecycle loop.
#[derive(Debug)]
pub struct ConnectionManager {
    state: ConnectionState,
    backoff_secs: u64,
}

impl View for ConnectionManager {
    type V = (ConnectionState, nat);

    closed spec fn view(&self) -> (ConnectionState, nat) {
        (self.state, self.backoff_secs as nat)
    }
}

impl ConnectionManager {
    /// The delay stays within its bounds.
    pub closed spec fn wf(&self) -> bool {
        MIN_BACKOFF_SECS <= self.backoff_secs <= MAX_BACKOFF_SECS
    }

    /// A manager whose first session is being opened.
    pub fn new() -> (r: ConnectionManager)
        ensures
            r.wf(),
            r@ == (ConnectionState::Connecting, MIN_BACKOFF_SECS as nat),
    {
        ConnectionManager { state: ConnectionState::Connecting, backoff_secs: MIN_BACKOFF_SECS }
    }

    /// The current state.
    pub fn state(&self) -> (r: ConnectionState)
        ensures
            r == self@.0,
    {
        self.state
    }

    /// The delay before the next reconnect, in seconds.
    pub fn backoff_secs(&self) -> (r: u64)
        ensures
            r == self@.1,
    {
        self.backoff_secs
    }

    /// Whether the session is acknowledged; a publish while it is not may
    /// be queued or lost.
    pub fn is_connected(&self) -> (r: bool)
        ensures
            r == (self@.0 == ConnectionState::Connected),
    {
        self.state == ConnectionState::Connected
    }

    /// Takes in one transport event: an acknowledgment connects and resets
    /// the delay; a disconnection or error disconnects, asks for a reconnect
    /// after the current delay, and doubles the delay up to its maximum.
    pub fn on_event(&mut self, event: ConnectionEvent) -> (r: ConnectionAction)
        requires
            old(self).wf(),
        ensures
            final(self).wf(),
            (final(self)@, r) == lifecycle_step(old(self)@, event),
    {
        match event {
            ConnectionEvent::ConnAck => {
                self.state = ConnectionState::Connected;
                self.backoff_secs = MIN_BACKOFF_SECS;
                ConnectionAction::Continue
            },
            ConnectionEvent::Disconnect | ConnectionEvent::Error { .. } => {
                let delay = self.backoff_secs;
                self.state = ConnectionState::Disconnected;
                self.backoff_secs = if delay <= MAX_BACKOFF_SECS / 2 {
                    2 * delay
                } else {
                    MAX_BACKOFF_SECS
                };
                ConnectionAction::Reconnect { delay_secs: delay }
            },
            ConnectionEvent::Other => ConnectionAction::Continue,
        }
    }

    /// Marks that a new session is being opened.
    pub fn begin_session(&mut self)
        requires
            old(self).wf(),
        ensures
            final(self).wf(),
            final(self)@ == (ConnectionState::Connecting, old(self)@.1),
    {
        self.state = ConnectionState::Connecting;
    }
}

/// Starting from the minimum delay, the `n`-th consecutive failure waits
/// `d0 * 2^n` seconds, capped at the maximum, and a single acknowledgment
/// brings the delay of the next failure back to the minimum.
pub proof fn lemma_backoff_sequence(s: ConnectionState, n: nat)
    ensures
        after_failures((s, MIN_BACKOFF_SECS as nat), n).1 == delay_after(n),
        lifecycle_step(after_failures((s, MIN_BACKOFF_SECS as nat), n), ConnectionEvent::Error { aborted: false }).1
            == (ConnectionAction::Reconnect { delay_secs: delay_after(n) as u64 }),
        lifecycle_step(
            lifecycle_step(after_failures((s, MIN_BACKOFF_SECS as nat), n), ConnectionEvent::ConnAck).0,
            ConnectionEvent::Error { aborted: false },
        ).1 == (ConnectionAction::Reconnect { delay_secs: MIN_BACKOFF_SECS }),
    decreases n,
{
    if n > 0 {
        lemma_backoff_sequence(s, (n - 1) as nat);
        assert(pow2(n) == 2 * pow2((n - 1) as nat));
    }
}

/// The keep-alive interval of a session, in seconds.
pub const KEEP_ALIVE_SECS: u64 = 5;

/// What one session attempt is opened with.
#[derive(Debug, Clone)]
pub struct SessionParams {
    /// Unique to the attempt, so that the broker never confuses two sessions.
    pub client_id: String,
    pub host: String,
    pub port: u16,
    pub username: String,
    pub password: String,
    pub keep_alive_secs: u64,
}

/// The session identifier of the attempt made at `stamp`: the configured
/// client identifier, a dash, and the stamp in decimal.
pub open spec fn session_id_of(client: Seq<char>, stamp: nat) -> Seq<char> {
    client + "-"@ + decimal(stamp)
}

/// The parameters of a new session attempt, built afresh for each attempt
/// from the settings and a stamp that differs between attempts (a
/// monotonic timestamp).
pub fn session_params(config: &Config, stamp: u64) -> (r: SessionParams)
    ensures
        r.client_id@ == session_id_of(config.client_id@, stamp as nat),
        r.host@ == config.broker_host@,
        r.port == config.broker_port,
        r.username@ == config.broker_username@,
        r.password@ == config.broker_password@,
        r.keep_alive_secs == KEEP_ALIVE_SECS,
{
    let mut client_id = config.client_id.clone();
    client_id.append("-");
    push_decimal(&mut client_id, stamp as u128);
    SessionParams {
        client_id,
        host: config.broker_host.clone(),
        port: config.broker_port,
        username: config.broker_username.clone(),
        password: config.broker_password.clone(),
        keep_alive_secs: KEEP_ALIVE_SECS,
    }
}

/// Two attempts with different stamps get different session identifiers.
pub proof fn lemma_session_ids_differ(client: Seq<char>, a: nat, b: nat)
    requires
        a != b,
    ensures
        session_id_of(client, a) != session_id_of(client, b),
{
    lemma_decimal_injective(a, b);
    let p = client + "-"@;
    assert(session_id_of(client, a) == p + decimal(a));
    assert(session_id_of(client, b) == p + decimal(b));
    if session_id_of(client, a) == session_id_of(client, b) {
        assert(decimal(a) =~= (p + decimal(a)).subrange(p.len() as int, (p + decimal(a)).len() as int));
        assert(decimal(b) =~= (p + decimal(b)).subrange(p.len() as int, (p + decimal(b)).len() as int));
    }
}

/// Distinct numbers have distinct decimal texts.
pub proof fn lemma_decimal_injective(a: nat, b: nat)
    requires
        a != b,
    ensures
        decimal(a) != decimal(b),
    decreases a + b,
{
    if a < 10 && b < 10 {
        assert(decimal(a)[0] != decimal(b)[0]);
    } else if a < 10 {
        lemma_decimal_len(b / 10);
        assert(decimal(b).len() >= 2);
    } else if b < 10 {
        lemma_decimal_len(a / 10);
        assert(decimal(a).len() >= 2);
    } else if a / 10 != b / 10 {
        lemma_decimal_injective(a / 10, b / 10);
        if decimal(a) == decimal(b) {
            assert(decimal(a / 10) =~= decimal(a).drop_last());
            assert(decimal(b / 10) =~= decimal(b).drop_last());
        }
    } else {
        assert(a % 10 != b % 10);
        assert(decimal(a).last() != decimal(b).last());
    }
}

/// A decimal text has at least one digit.
proof fn lemma_decimal_len(n: nat)
    ensures
        decimal(n).len() >= 1,
    decreases n,
{
    if n >= 10 {
        lemma_decimal_len(n / 10);
    }
}

/// What a readiness wait does next.
#[derive(Debug, Clone, Copy, PartialEq, Eq, Structural)]
pub enum ReadyStep {
    Ready,
    Wait,
    TimedOut,
}

/// One poll of the readiness wait: ready once connected, a timeout once more
/// than the ceiling has passed, else wait and poll again.
pub fn ready_step(connected: bool, elapsed_ms: u64) -> (r: ReadyStep)
    ensures
        connected ==> r == ReadyStep::Ready,
        !connected && elapsed_ms > READY_TIMEOUT_MS ==> r == ReadyStep::TimedOut,
        !connected && elapsed_ms <= READY_TIMEOUT_MS ==> r == ReadyStep::Wait,
{
    if connected {
        ReadyStep::Ready
    } else if elapsed_ms > READY_TIMEOUT_MS {
        ReadyStep::TimedOut
    } else {
        ReadyStep::Wait
    }
}

} // verus!
