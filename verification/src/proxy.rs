//! The decisions of one proxied client connection.
//!
//! A connection asks the scheduler for a backend once. With no healthy
//! backend the client is dropped at once. Otherwise the caller connects to
//! the backend: when that fails the client is dropped, with no second
//! choice; when it succeeds bytes are relayed both ways until either side
//! ends, and then both ends are closed. Connecting and relaying are done by
//! the caller; this module says what to do next.

use vstd::prelude::*;
use crate::model::PoolView;
use crate::pool::LoadBalancer;

verus! {

/// Where a connection is in its life.
#[derive(Debug, PartialEq, Eq)]
pub enum ConnectionState {
    /// The client has been accepted and no backend has been chosen yet.
    Accepted,
    /// A backend has been selected and the connection to it is being opened.
    Connecting { backend: String },
    /// Bytes are being relayed between the client and the backend.
    Relaying { backend: String },
    /// The relay has ended and both ends are closed.
    Closed,
    /// No backend was healthy; the client was dropped.
    DroppedNoBackend,
    /// The selected backend could not be reached; the client was dropped.
    DroppedConnectFailed { backend: String },
}

/// A connection state with its address as a sequence of characters.
pub enum ConnectionStateView {
    Accepted,
    Connecting { backend: Seq<char> },
    Relaying { backend: Seq<char> },
    Closed,
    DroppedNoBackend,
    DroppedConnectFailed { backend: Seq<char> },
}

impl View for ConnectionState {
    type V = ConnectionStateView;

    open spec fn view(&self) -> ConnectionStateView {
        match *self {
            ConnectionState::Accepted => ConnectionStateView::Accepted,
            ConnectionState::Connecting { backend } => ConnectionStateView::Connecting {
                backend: backend@,
            },
            ConnectionState::Relaying { backend } => ConnectionStateView::Relaying {
                backend: backend@,
            },
            ConnectionState::Closed => ConnectionStateView::Closed,
            ConnectionState::DroppedNoBackend => ConnectionStateView::DroppedNoBackend,
            ConnectionState::DroppedConnectFailed { backend } => {
                ConnectionStateView::DroppedConnectFailed { backend: backend@ }
            },
        }
    }
}

impl ConnectionStateView {
    /// A state that no event leaves.
    pub open spec fn is_terminal(self) -> bool {
        self is Closed || self is DroppedNoBackend || self is DroppedConnectFailed
    }
}

/// What the caller reports back about a connection.
#[derive(Debug, PartialEq, Eq, Clone, Copy, Structural)]
pub enum ConnectionEvent {
    /// The connection to the backend was established.
    ConnectSucceeded,
    /// The connection to the backend could not be established.
    ConnectFailed,
    /// Either direction of the relay reached its end or failed.
    RelayEnded,
}

/// Why a client is dropped without having been served.
#[derive(Debug, PartialEq, Eq, Clone, Copy, Structural)]
pub enum DropReason {
    /// Every backend is marked unhealthy.
    NoHealthyBackend,
    /// The selected backend refused or failed the connection.
    ConnectFailed,
}

/// What the caller does next for a connection.
#[derive(Debug, PartialEq, Eq)]
pub enum ConnectionAction {
    /// Open a connection to `address`, then report how it went.
    Connect { address: String },
    /// Relay bytes in both directions until either ends, then report it.
    Relay,
    /// Close both ends.
    CloseBoth,
    /// Close the client's end and report why.
    DropClient { reason: DropReason },
    /// Nothing: the connection was not waiting for this.
    Ignore,
}

/// A connection action with its address as a sequence of characters.
pub enum ConnectionActionView {
    Connect { address: Seq<char> },
    Relay,
    CloseBoth,
    DropClient { reason: DropReason },
    Ignore,
}

impl View for ConnectionAction {
    type V = ConnectionActionView;

    open spec fn view(&self) -> ConnectionActionView {
        match *self {
            ConnectionAction::Connect { address } => ConnectionActionView::Connect {
                address: address@,
            },
            ConnectionAction::Relay => ConnectionActionView::Relay,
            ConnectionAction::CloseBoth => ConnectionActionView::CloseBoth,
            ConnectionAction::DropClient { reason } => ConnectionActionView::DropClient { reason },
            ConnectionAction::Ignore => ConnectionActionView::Ignore,
        }
    }
}

/// The address that the next selection from `pool` returns, if any.
pub open spec fn selected_address(pool: PoolView) -> Option<Seq<char>> {
    match pool.chosen() {
        Some(j) => Some(pool.backends[j].address),
        None => None,
    }
}

/// The state that follows `state` once a backend has been asked for and
/// `choice` came back. Only an accepted connection asks.
pub open spec fn state_after_selection(
    state: ConnectionStateView,
    choice: Option<Seq<char>>,
) -> ConnectionStateView {
    match (state, choice) {
        (ConnectionStateView::Accepted, Some(a)) => ConnectionStateView::Connecting { backend: a },
        (ConnectionStateView::Accepted, None) => ConnectionStateView::DroppedNoBackend,
        _ => state,
    }
}

/// What the caller is told once a backend has been asked for.
pub open spec fn action_after_selection(
    state: ConnectionStateView,
    choice: Option<Seq<char>>,
) -> ConnectionActionView {
    match (state, choice) {
        (ConnectionStateView::Accepted, Some(a)) => ConnectionActionView::Connect { address: a },
        (ConnectionStateView::Accepted, None) => ConnectionActionView::DropClient {
            reason: DropReason::NoHealthyBackend,
        },
        _ => ConnectionActionView::Ignore,
    }
}

/// The state that follows `state` on `event`.
pub open spec fn state_after_event(
    state: ConnectionStateView,
    event: ConnectionEvent,
) -> ConnectionStateView {
    match (state, event) {
        (ConnectionStateView::Connecting { backend }, ConnectionEvent::ConnectSucceeded) => {
            ConnectionStateView::Relaying { backend }
        },
        (ConnectionStateView::Connecting { backend }, ConnectionEvent::ConnectFailed) => {
            ConnectionStateView::DroppedConnectFailed { backend }
        },
        (ConnectionStateView::Relaying { .. }, ConnectionEvent::RelayEnded) => {
            ConnectionStateView::Closed
        },
        _ => state,
    }
}

/// What the caller is told on `event` in `state`.
pub open spec fn action_after_event(
    state: ConnectionStateView,
    event: ConnectionEvent,
) -> ConnectionActionView {
    match (state, event) {
        (ConnectionStateView::Connecting { .. }, ConnectionEvent::ConnectSucceeded) => {
            ConnectionActionView::Relay
        },
        (ConnectionStateView::Connecting { .. }, ConnectionEvent::ConnectFailed) => {
            ConnectionActionView::DropClient { reason: DropReason::ConnectFailed }
        },
        (ConnectionStateView::Relaying { .. }, ConnectionEvent::RelayEnded) => {
            ConnectionActionView::CloseBoth
        },
        _ => ConnectionActionView::Ignore,
    }
}

/// One client connection.
pub struct Connection {
    state: ConnectionState,
}

impl View for Connection {
    type V = ConnectionStateView;

    closed spec fn view(&self) -> ConnectionStateView {
        self.state@
    }
}

impl Connection {
    /// A connection that has just been accepted.
    pub fn new() -> (c: Connection)
        ensures
            c@ == ConnectionStateView::Accepted,
    {
        Connection { state: ConnectionState::Accepted }
    }

    /// Whether the connection has reached a state that it never leaves.
    pub fn is_terminal(&self) -> (t: bool)
        ensures
            t == self@.is_terminal(),
    {
        match &self.state {
            ConnectionState::Closed => true,
            ConnectionState::DroppedNoBackend => true,
            ConnectionState::DroppedConnectFailed { .. } => true,
            _ => false,
        }
    }

    /// The backend that was selected for this connection, once one was.
    pub fn backend(&self) -> (r: Option<String>)
        ensures
            match self@ {
                ConnectionStateView::Connecting { backend } => r matches Some(a) && a@ == backend,
                ConnectionStateView::Relaying { backend } => r matches Some(a) && a@ == backend,
                ConnectionStateView::DroppedConnectFailed { backend } => r matches Some(a) && a@
                    == backend,
                _ => r is None,
            },
    {
        match &self.state {
            ConnectionState::Connecting { backend } => Some(backend.clone()),
            ConnectionState::Relaying { backend } => Some(backend.clone()),
            ConnectionState::DroppedConnectFailed { backend } => Some(backend.clone()),
            _ => None,
        }
    }

    /// Asks the scheduler for a backend, once, for an accepted connection.
    ///
    /// With a healthy backend the connection goes on to connect to it; with
    /// none the client is dropped and no connection is attempted. A
    /// connection that has already asked does not ask again and leaves the
    /// pool alone.
    pub fn select(&mut self, pool: &mut LoadBalancer) -> (a: ConnectionAction)
        ensures
            final(pool)@ == if old(self)@ is Accepted {
                old(pool)@.advanced()
            } else {
                old(pool)@
            },
            final(self)@ == state_after_selection(old(self)@, selected_address(old(pool)@)),
            a@ == action_after_selection(old(self)@, selected_address(old(pool)@)),
    {
        match &self.state {
            ConnectionState::Accepted => {
                match pool.next_backend() {
                    Some(address) => {
                        self.state = ConnectionState::Connecting { backend: address.clone() };
                        ConnectionAction::Connect { address }
                    },
                    None => {
                        self.state = ConnectionState::DroppedNoBackend;
                        ConnectionAction::DropClient { reason: DropReason::NoHealthyBackend }
                    },
                }
            },
            _ => ConnectionAction::Ignore,
        }
    }

    /// Takes the outcome of connecting or relaying and says what to do
    /// next. An event that the connection is not waiting for changes
    /// nothing.
    pub fn on_event(&mut self, event: ConnectionEvent) -> (a: ConnectionAction)
        ensures
            final(self)@ == state_after_event(old(self)@, event),
            a@ == action_after_event(old(self)@, event),
    {
        let backend = self.backend();
        match (&self.state, event) {
            (ConnectionState::Connecting { .. }, ConnectionEvent::ConnectSucceeded) => {
                match backend {
                    Some(b) => {
                        self.state = ConnectionState::Relaying { backend: b };
                        ConnectionAction::Relay
                    },
                    None => ConnectionAction::Ignore,
                }
            },
            (ConnectionState::Connecting { .. }, ConnectionEvent::ConnectFailed) => {
                match backend {
                    Some(b) => {
                        self.state = ConnectionState::DroppedConnectFailed { backend: b };
                        ConnectionAction::DropClient { reason: DropReason::ConnectFailed }
                    },
                    None => ConnectionAction::Ignore,
                }
            },
            (ConnectionState::Relaying { .. }, ConnectionEvent::RelayEnded) => {
                self.state = ConnectionState::Closed;
                ConnectionAction::CloseBoth
            },
            _ => ConnectionAction::Ignore,
        }
    }
}

/// A connection that has ended stays ended: no event moves it and none
/// asks the caller for anything.
pub proof fn terminal_states_absorb(state: ConnectionStateView, event: ConnectionEvent)
    requires
        state.is_terminal(),
    ensures
        state_after_event(state, event) == state,
        action_after_event(state, event) == ConnectionActionView::Ignore,
        forall|choice: Option<Seq<char>>| #[trigger]
            state_after_selection(state, choice) == state,
{
}

/// With no healthy backend, an accepted client is dropped and no backend
/// connection is asked for.
pub proof fn no_connect_when_all_down(pool: PoolView)
    requires
        pool.wf(),
        pool.all_down(),
    ensures
        state_after_selection(ConnectionStateView::Accepted, selected_address(pool))
            == ConnectionStateView::DroppedNoBackend,
        action_after_selection(ConnectionStateView::Accepted, selected_address(pool)) == (
            ConnectionActionView::DropClient { reason: DropReason::NoHealthyBackend }),
{
    crate::rotation::all_down_selects_nothing(pool, 0);
}

/// A failed connect ends the connection: nothing that follows asks for
/// another backend or another connect.
pub proof fn no_retry_after_connect_failure(backend: Seq<char>, event: ConnectionEvent)
    ensures
        state_after_event(
            ConnectionStateView::Connecting { backend },
            ConnectionEvent::ConnectFailed,
        ) == (ConnectionStateView::DroppedConnectFailed { backend }),
        action_after_event(ConnectionStateView::DroppedConnectFailed { backend }, event)
            == ConnectionActionView::Ignore,
        forall|choice: Option<Seq<char>>| #[trigger]
            action_after_selection(ConnectionStateView::DroppedConnectFailed { backend }, choice)
                == ConnectionActionView::Ignore,
{
}

} // verus!
