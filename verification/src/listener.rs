//! The listener's accept loop and its orderly shutdown, as decisions from the
//! listener's phase and what it observed to the next phase and what to do.
//!
//! The caller performs each action (accepting, draining connections, waiting
//! for the transition barrier, closing the database) and hands back what
//! came of it as the next event.
use vstd::prelude::*;
use crate::admission::{admission_for, admit_connection, ConnectionAdmission, SourceAddress};
use crate::lifecycle_gate::quiescence_overrun;
use crate::startup::{shutdown_outcome, shutdown_result, StartupError};

verus! {

/// What one accept produced.
#[derive(Clone, Copy, Debug, PartialEq, Eq, Structural)]
pub enum AcceptedConnection {
    /// A connection from `peer`, and which connection slots were free for it.
    Connection { peer: SourceAddress, normal_slot: bool, rejection_slot: bool },
    /// The listening socket failed.
    Failed,
}

/// What the listener observed.
#[derive(Clone, Copy, Debug, PartialEq, Eq, Structural)]
pub enum ListenerEvent {
    /// One poll of the accept loop: whether the shutdown signal has completed,
    /// and what accepting produced, if anything (`None` when the poll only
    /// reaped a finished connection).
    Polled { signalled: bool, accepted: Option<AcceptedConnection> },
    /// The drain of open connections ended: `drained` when every connection
    /// finished inside the drain budget.
    DrainEnded { drained: bool },
    /// The wait for the transition barrier to empty ended: whether its
    /// threshold was zero, and whether the barrier emptied before it elapsed.
    QuiesceEnded { threshold_is_zero: bool, emptied_before_threshold: bool },
    /// The database close ended: `closed` when it succeeded inside its budget.
    DatabaseClosed { closed: bool },
}

/// Where the listener stands.
#[derive(Clone, Copy, Debug, PartialEq, Eq)]
pub enum ListenerPhase {
    /// Accepting connections.
    Accepting,
    /// Accepting has stopped with `accepting`; the drain and the barrier's
    /// quiescence run side by side, and each records its end here.
    Stopping { accepting: Result<(), StartupError>, drained: Option<bool>, overrun: Option<bool> },
    /// Both ended; the database close was asked for.
    Closing { accepting: Result<(), StartupError>, drain_finished: bool, transition_overran: bool },
    /// The shutdown has returned its result.
    Finished,
}

/// What the listener does next.
#[derive(Clone, Copy, Debug, PartialEq, Eq)]
pub enum ListenerAction {
    /// Nothing; wait for the next event.
    Wait,
    /// Handle the accepted connection as decided.
    Admit(ConnectionAdmission),
    /// Stop accepting: close the transition barrier to new entrants when the
    /// stop came from the signal, release the bound socket, and start the
    /// drain and the quiescence wait side by side.
    BeginShutdown { close_barrier: bool },
    /// Terminate the connections the drain left unfinished and close the
    /// database, while the barrier stays held.
    CloseDatabase,
    /// Return this result.
    Finish(Result<(), StartupError>),
}

/// The phase after both the drain and the quiescence wait have recorded
/// their ends, or the phase that still waits for one of them.
pub open spec fn after_recorded(accepting: Result<(), StartupError>, drained: Option<bool>, overrun: Option<bool>) -> (ListenerPhase, ListenerAction) {
    match (drained, overrun) {
        (Some(d), Some(o)) => (ListenerPhase::Closing { accepting, drain_finished: d, transition_overran: o }, ListenerAction::CloseDatabase),
        _ => (ListenerPhase::Stopping { accepting, drained, overrun }, ListenerAction::Wait),
    }
}

/// One decision of the listener. A signal that has completed wins over a
/// connection that arrived at the same poll; a failed accept stops the
/// listener with the listener's error and leaves the barrier open; the
/// database is closed once both the drain and the quiescence wait ended; and
/// an event that does not belong to the phase changes nothing.
pub open spec fn listener_next(phase: ListenerPhase, event: ListenerEvent) -> (ListenerPhase, ListenerAction) {
    match (phase, event) {
        (ListenerPhase::Accepting, ListenerEvent::Polled { signalled, accepted }) => {
            if signalled {
                (
                    ListenerPhase::Stopping { accepting: Ok(()), drained: None, overrun: None },
                    ListenerAction::BeginShutdown { close_barrier: true },
                )
            } else {
                match accepted {
                    None => (ListenerPhase::Accepting, ListenerAction::Wait),
                    Some(AcceptedConnection::Failed) => (
                        ListenerPhase::Stopping {
                            accepting: Err(StartupError::HttpsListenerUnavailable),
                            drained: None,
                            overrun: None,
                        },
                        ListenerAction::BeginShutdown { close_barrier: false },
                    ),
                    Some(AcceptedConnection::Connection { peer, normal_slot, rejection_slot }) => (
                        ListenerPhase::Accepting,
                        ListenerAction::Admit(admission_for(peer, normal_slot, rejection_slot)),
                    ),
                }
            }
        },
        (ListenerPhase::Stopping { accepting, drained: None, overrun }, ListenerEvent::DrainEnded { drained }) =>
            after_recorded(accepting, Some(drained), overrun),
        (
            ListenerPhase::Stopping { accepting, drained, overrun: None },
            ListenerEvent::QuiesceEnded { threshold_is_zero, emptied_before_threshold },
        ) => after_recorded(accepting, drained, Some(threshold_is_zero || !emptied_before_threshold)),
        (ListenerPhase::Closing { accepting, drain_finished, transition_overran }, ListenerEvent::DatabaseClosed { closed }) =>
            (ListenerPhase::Finished, ListenerAction::Finish(shutdown_outcome(accepting, drain_finished, transition_overran, closed))),
        _ => (phase, ListenerAction::Wait),
    }
}

fn record_ends(accepting: Result<(), StartupError>, drained: Option<bool>, overrun: Option<bool>) -> (r: (ListenerPhase, ListenerAction))
    ensures
        r == after_recorded(accepting, drained, overrun),
{
    match (drained, overrun) {
        (Some(d), Some(o)) => (ListenerPhase::Closing { accepting, drain_finished: d, transition_overran: o }, ListenerAction::CloseDatabase),
        _ => (ListenerPhase::Stopping { accepting, drained, overrun }, ListenerAction::Wait),
    }
}

/// Decides the listener's next phase and action from what it observed.
pub fn listener_step(phase: ListenerPhase, event: ListenerEvent) -> (r: (ListenerPhase, ListenerAction))
    ensures
        r == listener_next(phase, event),
{
    match (phase, event) {
        (ListenerPhase::Accepting, ListenerEvent::Polled { signalled, accepted }) => {
            if signalled {
                (
                    ListenerPhase::Stopping { accepting: Ok(()), drained: None, overrun: None },
                    ListenerAction::BeginShutdown { close_barrier: true },
                )
            } else {
                match accepted {
                    None => (ListenerPhase::Accepting, ListenerAction::Wait),
                    Some(AcceptedConnection::Failed) => (
                        ListenerPhase::Stopping {
                            accepting: Err(StartupError::HttpsListenerUnavailable),
                            drained: None,
                            overrun: None,
                        },
                        ListenerAction::BeginShutdown { close_barrier: false },
                    ),
                    Some(AcceptedConnection::Connection { peer, normal_slot, rejection_slot }) => (
                        ListenerPhase::Accepting,
                        ListenerAction::Admit(admit_connection(peer, normal_slot, rejection_slot)),
                    ),
                }
            }
        },
        (ListenerPhase::Stopping { accepting, drained: None, overrun }, ListenerEvent::DrainEnded { drained }) =>
            record_ends(accepting, Some(drained), overrun),
        (
            ListenerPhase::Stopping { accepting, drained, overrun: None },
            ListenerEvent::QuiesceEnded { threshold_is_zero, emptied_before_threshold },
        ) => record_ends(accepting, drained, Some(quiescence_overrun(threshold_is_zero, emptied_before_threshold))),
        (ListenerPhase::Closing { accepting, drain_finished, transition_overran }, ListenerEvent::DatabaseClosed { closed }) =>
            (ListenerPhase::Finished, ListenerAction::Finish(shutdown_result(accepting, drain_finished, transition_overran, closed))),
        _ => (phase, ListenerAction::Wait),
    }
}

/// The phase after the first `n` events of a run that starts accepting.
pub open spec fn phase_at(events: Seq<ListenerEvent>, n: nat) -> ListenerPhase
    decreases n,
{
    if n == 0 {
        ListenerPhase::Accepting
    } else {
        listener_next(phase_at(events, (n - 1) as nat), events[n - 1]).0
    }
}

/// The action the run takes at its event `k`.
pub open spec fn action_at(events: Seq<ListenerEvent>, k: nat) -> ListenerAction {
    listener_next(phase_at(events, k), events[k as int]).1
}

/// The run began its shutdown at event `b`.
pub open spec fn began_at(events: Seq<ListenerEvent>, b: nat) -> bool {
    action_at(events, b) is BeginShutdown
}

/// An end of the drain was observed after event `b` and before event `n`.
pub open spec fn drain_ended_between(events: Seq<ListenerEvent>, b: nat, n: nat) -> bool {
    exists|i: nat| b < i < n && #[trigger] events[i as int] is DrainEnded
}

/// An end of the quiescence wait was observed after event `b` and before event `n`.
pub open spec fn quiesce_ended_between(events: Seq<ListenerEvent>, b: nat, n: nat) -> bool {
    exists|j: nat| b < j < n && #[trigger] events[j as int] is QuiesceEnded
}

/// What a run's first `n` events guarantee of the phase they reach.
pub open spec fn shutdown_history(events: Seq<ListenerEvent>, n: nat) -> bool {
    match phase_at(events, n) {
        ListenerPhase::Accepting => true,
        ListenerPhase::Stopping { drained, overrun, .. } => exists|b: nat|
            b < n && #[trigger] began_at(events, b)
                && (drained is Some ==> drain_ended_between(events, b, n))
                && (overrun is Some ==> quiesce_ended_between(events, b, n)),
        _ => exists|b: nat|
            b < n && #[trigger] began_at(events, b) && drain_ended_between(events, b, n)
                && quiesce_ended_between(events, b, n),
    }
}

proof fn lemma_shutdown_history(events: Seq<ListenerEvent>, n: nat)
    requires
        n <= events.len(),
    ensures
        shutdown_history(events, n),
    decreases n,
{
    if n > 0 {
        let m = (n - 1) as nat;
        lemma_shutdown_history(events, m);
        let p = phase_at(events, m);
        let e = events[m as int];
        assert(phase_at(events, n) == listener_next(p, e).0);
        match p {
            ListenerPhase::Accepting => {
                if listener_next(p, e).0 is Stopping {
                    assert(began_at(events, m));
                }
            },
            ListenerPhase::Stopping { drained, overrun, .. } => {
                let b = choose|b: nat|
                    b < m && #[trigger] began_at(events, b)
                        && (drained is Some ==> drain_ended_between(events, b, m))
                        && (overrun is Some ==> quiesce_ended_between(events, b, m));
                if drained is Some {
                    let i = choose|i: nat| b < i < m && #[trigger] events[i as int] is DrainEnded;
                    assert(b < i < n && events[i as int] is DrainEnded);
                }
                if overrun is Some {
                    let j = choose|j: nat| b < j < m && #[trigger] events[j as int] is QuiesceEnded;
                    assert(b < j < n && events[j as int] is QuiesceEnded);
                }
                if e is DrainEnded {
                    assert(b < m < n && events[m as int] is DrainEnded);
                }
                if e is QuiesceEnded {
                    assert(b < m < n && events[m as int] is QuiesceEnded);
                }
                assert(began_at(events, b));
            },
            _ => {
                let b = choose|b: nat|
                    b < m && #[trigger] began_at(events, b) && drain_ended_between(events, b, m)
                        && quiesce_ended_between(events, b, m);
                let i = choose|i: nat| b < i < m && #[trigger] events[i as int] is DrainEnded;
                let j = choose|j: nat| b < j < m && #[trigger] events[j as int] is QuiesceEnded;
                assert(b < i < n && events[i as int] is DrainEnded);
                assert(b < j < n && events[j as int] is QuiesceEnded);
                assert(began_at(events, b));
            },
        }
    }
}

/// The database is closed only after the shutdown began and, after that,
/// both the drain of connections and the wait for the transition barrier to
/// empty have ended, whichever ended last.
pub proof fn lemma_database_closes_after_drain_and_quiescence(events: Seq<ListenerEvent>, k: nat)
    requires
        k < events.len(),
        action_at(events, k) == ListenerAction::CloseDatabase,
    ensures
        exists|b: nat| b < k && #[trigger] began_at(events, b) && drain_ended_between(events, b, k + 1)
            && quiesce_ended_between(events, b, k + 1),
{
    lemma_shutdown_history(events, k);
    let p = phase_at(events, k);
    let e = events[k as int];
    match p {
        ListenerPhase::Stopping { drained, overrun, .. } => {
            let b = choose|b: nat|
                b < k && #[trigger] began_at(events, b)
                    && (drained is Some ==> drain_ended_between(events, b, k))
                    && (overrun is Some ==> quiesce_ended_between(events, b, k));
            if drained is Some {
                let i = choose|i: nat| b < i < k && #[trigger] events[i as int] is DrainEnded;
                assert(b < i < k + 1 && events[i as int] is DrainEnded);
            } else {
                assert(b < k < k + 1 && events[k as int] is DrainEnded);
            }
            if overrun is Some {
                let j = choose|j: nat| b < j < k && #[trigger] events[j as int] is QuiesceEnded;
                assert(b < j < k + 1 && events[j as int] is QuiesceEnded);
            } else {
                assert(b < k < k + 1 && events[k as int] is QuiesceEnded);
            }
            assert(began_at(events, b));
        },
        _ => {},
    }
}

/// A shutdown signal that has completed wins over a connection that arrived
/// at the same poll: the listener stops accepting and closes the barrier.
pub proof fn lemma_signal_wins_over_connection(accepted: Option<AcceptedConnection>)
    ensures
        listener_next(ListenerPhase::Accepting, ListenerEvent::Polled { signalled: true, accepted })
            == (
                ListenerPhase::Stopping { accepting: Ok(()), drained: None, overrun: None },
                ListenerAction::BeginShutdown { close_barrier: true },
            ),
{
}

/// Once the shutdown began, no connection is admitted again.
pub proof fn lemma_no_admission_after_shutdown_began(events: Seq<ListenerEvent>, b: nat, k: nat)
    requires
        b < k < events.len(),
        began_at(events, b),
    ensures
        !(action_at(events, k) is Admit),
{
    assert(phase_at(events, b + 1) == listener_next(phase_at(events, b), events[b as int]).0);
    lemma_never_accepting_again(events, b + 1, k);
}

proof fn lemma_never_accepting_again(events: Seq<ListenerEvent>, from: nat, k: nat)
    requires
        from <= k,
        !(phase_at(events, from) is Accepting),
    ensures
        !(phase_at(events, k) is Accepting),
    decreases k,
{
    if k > from {
        lemma_never_accepting_again(events, from, (k - 1) as nat);
    }
}

} // verus!
