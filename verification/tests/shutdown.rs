use weavelit_server::admission::{ConnectionAdmission, SourceAddress};
use weavelit_server::listener::{
    listener_step, AcceptedConnection, ListenerAction, ListenerEvent, ListenerPhase,
};
use weavelit_server::startup::StartupError;

const LOCALHOST: SourceAddress = SourceAddress::V4(0x7f00_0001);

fn run(events: &[ListenerEvent]) -> (ListenerPhase, Vec<ListenerAction>) {
    let mut phase = ListenerPhase::Accepting;
    let mut actions = Vec::new();
    for event in events {
        let (next, action) = listener_step(phase, *event);
        phase = next;
        actions.push(action);
    }
    (phase, actions)
}

fn signal() -> ListenerEvent {
    ListenerEvent::Polled { signalled: true, accepted: None }
}

fn quiesced() -> ListenerEvent {
    ListenerEvent::QuiesceEnded { threshold_is_zero: false, emptied_before_threshold: true }
}

#[test]
fn a_shutdown_signalled_as_a_connection_arrives_stops_instead_of_serving() {
    let arrived = AcceptedConnection::Connection { peer: LOCALHOST, normal_slot: true, rejection_slot: true };
    let (phase, action) =
        listener_step(ListenerPhase::Accepting, ListenerEvent::Polled { signalled: true, accepted: Some(arrived) });
    assert_eq!(action, ListenerAction::BeginShutdown { close_barrier: true });
    assert_eq!(phase, ListenerPhase::Stopping { accepting: Ok(()), drained: None, overrun: None });
}

#[test]
fn accepted_connections_are_admitted_while_accepting() {
    let (phase, actions) = run(&[
        ListenerEvent::Polled {
            signalled: false,
            accepted: Some(AcceptedConnection::Connection { peer: LOCALHOST, normal_slot: true, rejection_slot: true }),
        },
        ListenerEvent::Polled {
            signalled: false,
            accepted: Some(AcceptedConnection::Connection { peer: LOCALHOST, normal_slot: false, rejection_slot: true }),
        },
        ListenerEvent::Polled {
            signalled: false,
            accepted: Some(AcceptedConnection::Connection {
                peer: SourceAddress::V4(0x0a00_0001),
                normal_slot: true,
                rejection_slot: true,
            }),
        },
        ListenerEvent::Polled { signalled: false, accepted: None },
    ]);
    assert_eq!(phase, ListenerPhase::Accepting);
    assert_eq!(
        actions,
        vec![
            ListenerAction::Admit(ConnectionAdmission::Serve),
            ListenerAction::Admit(ConnectionAdmission::Reject),
            ListenerAction::Admit(ConnectionAdmission::Drop),
            ListenerAction::Wait,
        ]
    );
}

#[test]
fn the_database_closes_only_after_the_drain_and_the_quiescence_wait() {
    for ends in [
        [ListenerEvent::DrainEnded { drained: true }, quiesced()],
        [quiesced(), ListenerEvent::DrainEnded { drained: true }],
    ] {
        let (phase, actions) =
            run(&[signal(), ends[0], ends[1], ListenerEvent::DatabaseClosed { closed: true }]);
        assert_eq!(
            actions,
            vec![
                ListenerAction::BeginShutdown { close_barrier: true },
                ListenerAction::Wait,
                ListenerAction::CloseDatabase,
                ListenerAction::Finish(Ok(())),
            ]
        );
        assert_eq!(phase, ListenerPhase::Finished);
    }
}

#[test]
fn a_failed_accept_stops_with_the_listener_error_after_the_same_shutdown() {
    let (_, actions) = run(&[
        ListenerEvent::Polled { signalled: false, accepted: Some(AcceptedConnection::Failed) },
        ListenerEvent::DrainEnded { drained: true },
        quiesced(),
        ListenerEvent::DatabaseClosed { closed: true },
    ]);
    assert_eq!(
        actions,
        vec![
            ListenerAction::BeginShutdown { close_barrier: false },
            ListenerAction::Wait,
            ListenerAction::CloseDatabase,
            ListenerAction::Finish(Err(StartupError::HttpsListenerUnavailable)),
        ]
    );
}

#[test]
fn a_drain_that_cannot_finish_reports_an_incomplete_shutdown() {
    let (_, actions) = run(&[
        signal(),
        ListenerEvent::DrainEnded { drained: false },
        quiesced(),
        ListenerEvent::DatabaseClosed { closed: true },
    ]);
    assert_eq!(actions[3], ListenerAction::Finish(Err(StartupError::ShutdownIncomplete)));
}

#[test]
fn a_failing_database_close_reports_an_incomplete_shutdown() {
    let (_, actions) = run(&[
        signal(),
        ListenerEvent::DrainEnded { drained: true },
        quiesced(),
        ListenerEvent::DatabaseClosed { closed: false },
    ]);
    assert_eq!(actions[3], ListenerAction::Finish(Err(StartupError::ShutdownIncomplete)));
}

#[test]
fn a_transition_that_outlasts_its_threshold_reports_an_incomplete_shutdown() {
    for (threshold_is_zero, emptied_before_threshold) in [(false, false), (true, true)] {
        let (_, actions) = run(&[
            signal(),
            ListenerEvent::QuiesceEnded { threshold_is_zero, emptied_before_threshold },
            ListenerEvent::DrainEnded { drained: true },
            ListenerEvent::DatabaseClosed { closed: true },
        ]);
        assert_eq!(actions[3], ListenerAction::Finish(Err(StartupError::ShutdownIncomplete)));
    }
}

#[test]
fn events_that_do_not_belong_to_the_phase_change_nothing() {
    let (phase, actions) = run(&[
        ListenerEvent::DrainEnded { drained: true },
        ListenerEvent::DatabaseClosed { closed: true },
        signal(),
        signal(),
        ListenerEvent::Polled {
            signalled: false,
            accepted: Some(AcceptedConnection::Connection { peer: LOCALHOST, normal_slot: true, rejection_slot: true }),
        },
        ListenerEvent::DatabaseClosed { closed: true },
        ListenerEvent::DrainEnded { drained: true },
        ListenerEvent::DrainEnded { drained: false },
    ]);
    assert_eq!(
        actions,
        vec![
            ListenerAction::Wait,
            ListenerAction::Wait,
            ListenerAction::BeginShutdown { close_barrier: true },
            ListenerAction::Wait,
            ListenerAction::Wait,
            ListenerAction::Wait,
            ListenerAction::Wait,
            ListenerAction::Wait,
        ]
    );
    assert_eq!(phase, ListenerPhase::Stopping { accepting: Ok(()), drained: Some(true), overrun: None });
}
