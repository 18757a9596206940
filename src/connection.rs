//! The relay subscription lifecycle as an explicit state machine, and the
//! bound on concurrently running event handlers.
use vstd::prelude::*;

verus! {

/// Seconds to wait after a failed connection attempt.
pub const CONNECT_RETRY_SECS: u64 = 5;

/// Seconds to wait after an established stream ended or failed.
pub const RECONNECT_SECS: u64 = 10;

/// Largest number of event handlers running at once.
pub const MAX_IN_FLIGHT: usize = 50;

/// Where the subscription stands.
#[derive(Debug, Clone, Copy, PartialEq, Eq, Structural)]
pub enum ConnectionState {
    Disconnected,
    Connecting,
    Streaming,
}

/// How the handling of one event ended; none of these ends the stream.
#[derive(Debug, Clone, Copy, PartialEq, Eq, Structural)]
pub enum EventDisposition {
    /// Its effects were committed.
    Committed,
    /// It was acknowledged without effects: a per-record rejection.
    Rejected,
    /// Its collection has no handler: a configuration error.
    UnknownCollection,
    /// It failed for this delivery and nothing was committed.
    Failed,
}

/// What happened to the subscription.
#[derive(Debug, Clone, Copy, PartialEq, Eq, Structural)]
pub enum ConnectionEvent {
    /// The process started, or a wait before retrying elapsed.
    RetryDue,
    Connected,
    ConnectFailed,
    /// The relay closed the stream.
    StreamClosed,
    /// The transport failed.
    StreamFailed,
    EventHandled(EventDisposition),
}

/// What the runner does next.
#[derive(Debug, Clone, Copy, PartialEq, Eq, Structural)]
pub enum ConnectionAction {
    /// Open a subscription.
    Connect,
    /// Keep reading events.
    Consume,
    /// Wait this many seconds, then report `RetryDue`.
    Wait(u64),
    /// Nothing: the event does not apply in this state.
    Ignore,
}

/// The transition relation: any failure leads back to `Disconnected` with a
/// fixed wait; retries never stop; handled events never end the stream.
pub open spec fn transition(s: ConnectionState, e: ConnectionEvent) -> (ConnectionState, ConnectionAction) {
    match (s, e) {
        (ConnectionState::Disconnected, ConnectionEvent::RetryDue) => (
            ConnectionState::Connecting,
            ConnectionAction::Connect,
        ),
        (ConnectionState::Connecting, ConnectionEvent::Connected) => (
            ConnectionState::Streaming,
            ConnectionAction::Consume,
        ),
        (ConnectionState::Connecting, ConnectionEvent::ConnectFailed) => (
            ConnectionState::Disconnected,
            ConnectionAction::Wait(CONNECT_RETRY_SECS),
        ),
        (ConnectionState::Streaming, ConnectionEvent::StreamClosed) => (
            ConnectionState::Disconnected,
            ConnectionAction::Wait(RECONNECT_SECS),
        ),
        (ConnectionState::Streaming, ConnectionEvent::StreamFailed) => (
            ConnectionState::Disconnected,
            ConnectionAction::Wait(RECONNECT_SECS),
        ),
        (ConnectionState::Streaming, ConnectionEvent::EventHandled(_)) => (
            ConnectionState::Streaming,
            ConnectionAction::Consume,
        ),
        _ => (s, ConnectionAction::Ignore),
    }
}

impl ConnectionState {
    /// The next state and action.
    pub fn step(self, e: ConnectionEvent) -> (r: (ConnectionState, ConnectionAction))
        ensures
            r == transition(self, e),
    {
        match (self, e) {
            (ConnectionState::Disconnected, ConnectionEvent::RetryDue) => (
                ConnectionState::Connecting,
                ConnectionAction::Connect,
            ),
            (ConnectionState::Connecting, ConnectionEvent::Connected) => (
                ConnectionState::Streaming,
                ConnectionAction::Consume,
            ),
            (ConnectionState::Connecting, ConnectionEvent::ConnectFailed) => (
                ConnectionState::Disconnected,
                ConnectionAction::Wait(CONNECT_RETRY_SECS),
            ),
            (ConnectionState::Streaming, ConnectionEvent::StreamClosed) => (
                ConnectionState::Disconnected,
                ConnectionAction::Wait(RECONNECT_SECS),
            ),
            (ConnectionState::Streaming, ConnectionEvent::StreamFailed) => (
                ConnectionState::Disconnected,
                ConnectionAction::Wait(RECONNECT_SECS),
            ),
            (ConnectionState::Streaming, ConnectionEvent::EventHandled(_)) => (
                ConnectionState::Streaming,
                ConnectionAction::Consume,
            ),
            _ => (self, ConnectionAction::Ignore),
        }
    }
}

/// From every state the subscription returns to streaming: a disconnected
/// one retries, a failed attempt waits and retries; and no handled event,
/// whatever its disposition, ends a stream.
pub proof fn lemma_connection_recovers(s: ConnectionState, d: EventDisposition)
    ensures
        transition(ConnectionState::Disconnected, ConnectionEvent::RetryDue).0
            == ConnectionState::Connecting,
        transition(ConnectionState::Connecting, ConnectionEvent::ConnectFailed).0
            == ConnectionState::Disconnected,
        transition(ConnectionState::Streaming, ConnectionEvent::EventHandled(d))
            == (ConnectionState::Streaming, ConnectionAction::Consume),
        transition(s, ConnectionEvent::StreamFailed).0 != ConnectionState::Streaming,
{
}

/// Counts running event handlers against a fixed bound.
pub struct Dispatcher {
    in_flight: usize,
    limit: usize,
}

impl Dispatcher {
    pub closed spec fn running(&self) -> nat {
        self.in_flight as nat
    }

    pub closed spec fn bound(&self) -> nat {
        self.limit as nat
    }

    /// Never more handlers run than the bound allows.
    pub closed spec fn wf(&self) -> bool {
        0 < self.limit && self.in_flight <= self.limit
    }

    pub fn new(limit: usize) -> (r: Dispatcher)
        requires
            limit > 0,
        ensures
            r.wf(),
            r.running() == 0,
            r.bound() == limit,
    {
        Dispatcher { in_flight: 0, limit }
    }

    /// Number of running handlers.
    pub fn running_now(&self) -> (r: usize)
        ensures
            r == self.running(),
    {
        self.in_flight
    }

    /// Claims a handler slot if one is free.
    pub fn try_acquire(&mut self) -> (r: bool)
        requires
            old(self).wf(),
        ensures
            final(self).wf(),
            final(self).bound() == old(self).bound(),
            r == (old(self).running() < old(self).bound()),
            final(self).running() == if r {
                old(self).running() + 1
            } else {
                old(self).running()
            },
    {
        if self.in_flight < self.limit {
            self.in_flight = self.in_flight + 1;
            true
        } else {
            false
        }
    }

    /// Frees the slot of a finished handler.
    pub fn release(&mut self)
        requires
            old(self).wf(),
            old(self).running() > 0,
        ensures
            final(self).wf(),
            final(self).bound() == old(self).bound(),
            final(self).running() == old(self).running() - 1,
    {
        self.in_flight = self.in_flight - 1;
    }
}

} // verus!
