//! The decisions of the health monitor.
//!
//! The monitor sleeps for a fixed interval, then probes every backend in
//! turn and records what each probe found. Sleeping and probing are done by
//! the caller; this module says what to do next and keeps the pool's health
//! flags in step with the probe results.

use vstd::prelude::*;
use crate::model::{BackendView, PoolView};
use crate::pool::{LoadBalancer, Transition, direction_of};

verus! {

/// Seconds between two rounds of probes.
pub const PROBE_INTERVAL_SECS: u64 = 3;

/// Seconds after which a probe that has not connected counts as failed.
pub const PROBE_TIMEOUT_SECS: u64 = 1;

/// Where the monitor is in its cycle.
#[derive(Debug, PartialEq, Eq, Clone, Copy, Structural)]
pub enum MonitorState {
    /// Between two rounds, waiting for the interval to pass.
    Waiting,
    /// In a round, waiting for the probe of backend `index` to finish.
    Probing { index: usize },
}

/// What the caller reports back to the monitor.
#[derive(Debug, PartialEq, Eq, Clone, Copy, Structural)]
pub enum MonitorEvent {
    /// The interval has passed.
    TickElapsed,
    /// The probe has finished: `reachable` is true when the connection was
    /// established within the timeout, false on timeout, refusal or any
    /// other error.
    ProbeFinished { reachable: bool },
}

/// What the caller does next for the monitor.
#[derive(Debug, PartialEq, Eq)]
pub enum MonitorAction {
    /// Sleep for `seconds`, then report `TickElapsed`.
    Sleep { seconds: u64 },
    /// Try to connect to `address`, giving up after `timeout_seconds`, then
    /// report `ProbeFinished`.
    Probe { index: usize, address: String, timeout_seconds: u64 },
}

/// A monitor action with its address as a sequence of characters.
pub enum MonitorActionView {
    Sleep { seconds: u64 },
    Probe { index: usize, address: Seq<char>, timeout_seconds: u64 },
}

impl View for MonitorAction {
    type V = MonitorActionView;

    open spec fn view(&self) -> MonitorActionView {
        match *self {
            MonitorAction::Sleep { seconds } => MonitorActionView::Sleep { seconds },
            MonitorAction::Probe { index, address, timeout_seconds } => MonitorActionView::Probe {
                index,
                address: address@,
                timeout_seconds,
            },
        }
    }
}

/// The answer to an event: what to do next, and the health change that the
/// event caused, if it caused one.
pub struct MonitorStep {
    pub action: MonitorAction,
    pub transition: Option<Transition>,
}

/// Whether the monitor, in `state`, is waiting for `event`.
pub open spec fn expects(state: MonitorState, event: MonitorEvent) -> bool {
    match (state, event) {
        (MonitorState::Waiting, MonitorEvent::TickElapsed) => true,
        (MonitorState::Probing { .. }, MonitorEvent::ProbeFinished { .. }) => true,
        _ => false,
    }
}

/// The state that follows `state` on `event`, for a pool of `len` backends.
///
/// A tick starts a round at the first backend, or is waited out again where
/// there is none. A finished probe moves on to the next backend, or ends the
/// round after the last one. An event that the monitor is not waiting for
/// changes nothing.
pub open spec fn next_state(state: MonitorState, event: MonitorEvent, len: int) -> MonitorState {
    match (state, event) {
        (MonitorState::Waiting, MonitorEvent::TickElapsed) => if len > 0 {
            MonitorState::Probing { index: 0 }
        } else {
            MonitorState::Waiting
        },
        (MonitorState::Probing { index }, MonitorEvent::ProbeFinished { .. }) => if index + 1
            < len {
            MonitorState::Probing { index: (index + 1) as usize }
        } else {
            MonitorState::Waiting
        },
        _ => state,
    }
}

/// The backend whose flag `event` sets, with the value it is set to: the
/// backend under probe, when its probe finishes.
pub open spec fn recorded(state: MonitorState, event: MonitorEvent, len: int) -> Option<
    (int, bool),
> {
    match (state, event) {
        (MonitorState::Probing { index }, MonitorEvent::ProbeFinished { reachable }) => if index
            < len {
            Some((index as int, reachable))
        } else {
            None
        },
        _ => None,
    }
}

/// The pool that follows `pool` on `event`: the flag of the backend under
/// probe is set to what the probe found, and nothing else changes.
pub open spec fn next_pool(state: MonitorState, event: MonitorEvent, pool: PoolView) -> PoolView {
    match recorded(state, event, pool.len()) {
        Some((i, reachable)) => pool.with_health(i, reachable),
        None => pool,
    }
}

/// What the monitor asks for while it is in `state`: the sleep between
/// rounds, or the probe of the backend it has reached.
pub open spec fn pending_action(state: MonitorState, pool: PoolView) -> MonitorActionView {
    match state {
        MonitorState::Probing { index } if index < pool.len() => MonitorActionView::Probe {
            index,
            address: pool.backends[index as int].address,
            timeout_seconds: PROBE_TIMEOUT_SECS,
        },
        _ => MonitorActionView::Sleep { seconds: PROBE_INTERVAL_SECS },
    }
}

/// The monitor's state and the pool once a round has started with a tick and
/// the first `k` probes have reported `results`.
pub open spec fn round_prefix(pool: PoolView, results: Seq<bool>, k: nat) -> (
    MonitorState,
    PoolView,
)
    decreases k,
{
    if k == 0 {
        (
            next_state(MonitorState::Waiting, MonitorEvent::TickElapsed, pool.len()),
            next_pool(MonitorState::Waiting, MonitorEvent::TickElapsed, pool),
        )
    } else {
        let (s, p) = round_prefix(pool, results, (k - 1) as nat);
        let e = MonitorEvent::ProbeFinished { reachable: results[k - 1] };
        (next_state(s, e, p.len()), next_pool(s, e, p))
    }
}

/// While a round is under way, the probes reported so far have set the flags
/// of the first backends, in order, the rest of the pool is untouched, and
/// the monitor has reached the next backend.
pub proof fn round_in_progress(pool: PoolView, results: Seq<bool>, k: nat)
    requires
        pool.wf(),
        pool.len() <= usize::MAX,
        results.len() == pool.len(),
        k < pool.len(),
    ensures
        round_prefix(pool, results, k).0 == (MonitorState::Probing { index: k as usize }),
        round_prefix(pool, results, k).1.cursor == pool.cursor,
        round_prefix(pool, results, k).1.len() == pool.len(),
        forall|i: int|
            0 <= i < pool.len() ==> #[trigger] round_prefix(pool, results, k).1.backends[i] == (
            BackendView {
                address: pool.backends[i].address,
                healthy: if i < k {
                    results[i]
                } else {
                    pool.backends[i].healthy
                },
            }),
    decreases k,
{
    if k > 0 {
        round_in_progress(pool, results, (k - 1) as nat);
    }
}

/// One round probes every backend: after the tick and one probe result per
/// backend, each flag is what its probe found, whatever the other probes
/// found, addresses and cursor are as before, and the monitor waits for the
/// next tick.
pub proof fn round_records_every_probe(pool: PoolView, results: Seq<bool>)
    requires
        pool.wf(),
        pool.len() <= usize::MAX,
        results.len() == pool.len(),
    ensures
        round_prefix(pool, results, results.len()).0 == MonitorState::Waiting,
        round_prefix(pool, results, results.len()).1.cursor == pool.cursor,
        round_prefix(pool, results, results.len()).1.len() == pool.len(),
        forall|i: int|
            0 <= i < pool.len() ==> #[trigger] round_prefix(
                pool,
                results,
                results.len(),
            ).1.backends[i] == (BackendView {
                address: pool.backends[i].address,
                healthy: results[i],
            }),
{
    let n = results.len();
    round_in_progress(pool, results, (n - 1) as nat);
}

/// The periodic health monitor of one pool.
pub struct HealthMonitor {
    state: MonitorState,
}

impl View for HealthMonitor {
    type V = MonitorState;

    closed spec fn view(&self) -> MonitorState {
        self.state
    }
}

impl HealthMonitor {
    /// A monitor between rounds: its first action is to sleep.
    pub fn new() -> (m: HealthMonitor)
        ensures
            m@ == MonitorState::Waiting,
    {
        HealthMonitor { state: MonitorState::Waiting }
    }

    /// Where the monitor is in its cycle.
    pub fn state(&self) -> (s: MonitorState)
        ensures
            s == self@,
    {
        self.state
    }

    /// What the monitor is waiting for the caller to do.
    pub fn pending(&self, pool: &LoadBalancer) -> (a: MonitorAction)
        ensures
            a@ == pending_action(self@, pool@),
    {
        match self.state {
            MonitorState::Waiting => MonitorAction::Sleep { seconds: PROBE_INTERVAL_SECS },
            MonitorState::Probing { index } => {
                match pool.address(index) {
                    Some(address) => MonitorAction::Probe {
                        index,
                        address,
                        timeout_seconds: PROBE_TIMEOUT_SECS,
                    },
                    None => MonitorAction::Sleep { seconds: PROBE_INTERVAL_SECS },
                }
            },
        }
    }

    /// Takes an event, records a finished probe in the pool, moves on, and
    /// says what to do next.
    ///
    /// A probe result sets the flag of the backend under probe and of no
    /// other; a failed probe is a result like any other and the round goes
    /// on. The health change is reported when the flag flipped.
    pub fn step(&mut self, pool: &mut LoadBalancer, event: MonitorEvent) -> (r: MonitorStep)
        ensures
            final(self)@ == next_state(old(self)@, event, old(pool)@.len()),
            final(pool)@ == next_pool(old(self)@, event, old(pool)@),
            r.action@ == pending_action(final(self)@, final(pool)@),
            match recorded(old(self)@, event, old(pool)@.len()) {
                Some((i, reachable)) => {
                    &&& r.transition is Some <==> old(pool)@.flips(i, reachable)
                    &&& r.transition matches Some(t) ==> t.index == i && t.address@ == old(
                        pool,
                    )@.backends[i].address && t.direction == direction_of(reachable)
                },
                None => r.transition is None,
            },
    {
        let len = pool.len();
        let mut transition: Option<Transition> = None;
        match (self.state, event) {
            (MonitorState::Waiting, MonitorEvent::TickElapsed) => {
                if len > 0 {
                    self.state = MonitorState::Probing { index: 0 };
                }
            },
            (MonitorState::Probing { index }, MonitorEvent::ProbeFinished { reachable }) => {
                if index < len {
                    transition = pool.set_health(index, reachable);
                }
                if index < len && index + 1 < len {
                    self.state = MonitorState::Probing { index: index + 1 };
                } else {
                    self.state = MonitorState::Waiting;
                }
            },
            _ => {},
        }
        let action = self.pending(pool);
        MonitorStep { action, transition }
    }
}

} // verus!
