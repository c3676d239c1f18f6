use weavelit_server::audit_recovery::{
    reject_consequential_audit_failure, AuditFailureRecord, LogDeliveryError, LogDestinationError,
};
use weavelit_server::audit_recovery::{next_sequence, RecoverySequence};
use std::cell::Cell;

use weavelit_server::audit_recovery::{
    drain_sequence_state, obligation_completed, AuditRecoverySequenceState,
    ConsequentialOperationError, ObligationOutcome, OperationalAuditRecoveryState,
};
use weavelit_server::credentials::{ReconciliationCapability, SecretEntropy, SecretText};
use weavelit_server::database_handle::{map_database_error, ActiveDatabase, DatabaseError, DatabaseHandle};
use weavelit_server::log_assignment::{
    assigned_configuration, sole_assigned_configuration, LogAssignment, LogModuleConfiguration, LogType,
};
use weavelit_server::password_change::{
    drain_outcome, event_time, password_change_result, password_change_step, preparation_error,
    PasswordChangeDelivery, PasswordChangeOutcome, PasswordChangePreparationError,
    PasswordChangeResult, PasswordChangeStage, PasswordChangeStep, PasswordChangeWorkflowError,
    StageOutcome,
};
use weavelit_server::serving::{
    mounted_lifecycle_routes, preoperational_offer, publishes_finalization, reconciliation_outcome,
    reconciliation_precondition, submitted_reconciliation_digest, OperationalMount,
    PreoperationalOffer, ReconciliationOutcome, ReconciliationPreBody, ReconciliationRejection,
    ServingMode, ServingModeSwitch,
};
use weavelit_server::startup::LifecycleError;

use AuditRecoverySequenceState::{Pending, Ready, RecoveryRequired};
use ObligationOutcome::{AcknowledgeFailed, Acknowledged, DeliveryPending, DestinationBindingChanged, RestoreFailed};

fn configuration(id: u8, module: &str, enabled: bool) -> LogModuleConfiguration {
    LogModuleConfiguration { identifier: [id; 16], module: module.to_owned(), enabled }
}

fn assignment(log_type: LogType, id: u8) -> LogAssignment {
    LogAssignment { log_type, configuration: [id; 16] }
}

/// An owner whose activated database counts its closes.
fn activated(closes: &Cell<u32>) -> ActiveDatabase<&Cell<u32>> {
    let mut owner = ActiveDatabase::new();
    owner.activate(DatabaseHandle::new(closes));
    owner
}

fn counting_close(database: &Cell<u32>) -> Result<(), DatabaseError> {
    database.set(database.get() + 1);
    Ok(())
}

#[test]
fn a_drain_that_cannot_list_requires_recovery() {
    assert_eq!(drain_sequence_state(None, 16, &[]), (RecoveryRequired, true));
}

#[test]
fn a_full_batch_may_have_more_and_a_short_one_is_ready() {
    assert_eq!(drain_sequence_state(Some(2), 2, &[Acknowledged, Acknowledged]), (Pending, false));
    assert_eq!(drain_sequence_state(Some(1), 2, &[Acknowledged]), (Ready, false));
    assert_eq!(drain_sequence_state(Some(0), 2, &[]), (Ready, false));
}

#[test]
fn the_first_obligation_that_did_not_complete_decides() {
    assert_eq!(drain_sequence_state(Some(3), 3, &[Acknowledged, DeliveryPending]), (Pending, true));
    assert_eq!(drain_sequence_state(Some(3), 8, &[RestoreFailed]), (RecoveryRequired, true));
    assert_eq!(
        drain_sequence_state(Some(3), 8, &[Acknowledged, DestinationBindingChanged, DeliveryPending]),
        (RecoveryRequired, true)
    );
    assert_eq!(drain_sequence_state(Some(3), 8, &[AcknowledgeFailed]), (RecoveryRequired, true));
    assert!(obligation_completed(Acknowledged));
    assert!(!obligation_completed(DeliveryPending));
}

#[test]
fn list_failure_isolated_to_its_sequence() {
    let active = drain_sequence_state(None, 4, &[]).0;
    let late = drain_sequence_state(Some(1), 4, &[Acknowledged]).0;
    let state = OperationalAuditRecoveryState::after_drain(Some((active, late)));
    assert_eq!(state.active(), RecoveryRequired);
    assert_eq!(state.late_delivery(), Ready);
    assert!(!state.permits_consequential_operation());
}

#[test]
fn an_unresolved_destination_requires_recovery_of_both_sequences() {
    let state = OperationalAuditRecoveryState::after_drain(None);
    assert_eq!(state.active(), RecoveryRequired);
    assert_eq!(state.late_delivery(), RecoveryRequired);
    assert_eq!(OperationalAuditRecoveryState::recovery_required(), state);
}

#[test]
fn only_recovered_active_obligations_permit_a_consequential_operation() {
    assert!(OperationalAuditRecoveryState::after_drain(Some((Ready, Pending))).permits_consequential_operation());
    assert!(!OperationalAuditRecoveryState::after_drain(Some((Pending, Ready))).permits_consequential_operation());
}

#[test]
fn the_consequential_refusal_has_one_stable_code() {
    let error = ConsequentialOperationError::AuditLogUnavailable;
    assert_eq!(error.code(), "audit_log_unavailable");
    assert_eq!(error.message(), "Audit Log unavailable; operation rejected.");
}

#[test]
fn preparation_refusals_keep_their_kind() {
    assert_eq!(preparation_error(PasswordChangePreparationError::Denied), PasswordChangeWorkflowError::Denied);
    assert_eq!(
        preparation_error(PasswordChangePreparationError::Unavailable),
        PasswordChangeWorkflowError::Unavailable
    );
    assert_eq!(PasswordChangeWorkflowError::Denied.message(), "password change denied");
    assert_eq!(
        PasswordChangeWorkflowError::AuditLogUnavailable.message(),
        "consequential operation Audit Log unavailable"
    );
}

#[test]
fn a_password_change_waits_for_recovered_audit_obligations() {
    let blocked = OperationalAuditRecoveryState::after_drain(Some((Pending, Ready)));
    assert_eq!(drain_outcome(blocked), StageOutcome::Failed);
    assert_eq!(
        password_change_step(PasswordChangeStage::DrainAudit, drain_outcome(blocked)),
        PasswordChangeStep::Refuse { error: PasswordChangeWorkflowError::AuditLogUnavailable, reject_attempt: false }
    );
    let ready = OperationalAuditRecoveryState::after_drain(Some((Ready, RecoveryRequired)));
    assert_eq!(
        password_change_step(PasswordChangeStage::DrainAudit, drain_outcome(ready)),
        PasswordChangeStep::Continue(PasswordChangeStage::AdmitSession)
    );
}

#[test]
fn a_refused_admission_is_denied_before_an_audit_attempt() {
    assert_eq!(
        password_change_step(
            PasswordChangeStage::AdmitSession,
            StageOutcome::Refused(PasswordChangePreparationError::Denied)
        ),
        PasswordChangeStep::Refuse { error: PasswordChangeWorkflowError::Denied, reject_attempt: false }
    );
}

#[test]
fn an_undelivered_attempt_is_reported_and_refuses_the_change() {
    assert_eq!(
        password_change_step(PasswordChangeStage::DeliverAttempt, StageOutcome::Failed),
        PasswordChangeStep::Refuse { error: PasswordChangeWorkflowError::AuditLogUnavailable, reject_attempt: true }
    );
    assert_eq!(
        password_change_step(PasswordChangeStage::PrepareCorrelation, StageOutcome::Failed),
        PasswordChangeStep::Refuse { error: PasswordChangeWorkflowError::Unavailable, reject_attempt: false }
    );
    assert_eq!(
        password_change_step(PasswordChangeStage::CommitChange, StageOutcome::Done),
        PasswordChangeStep::Committed
    );
}

#[test]
fn event_times_come_from_a_working_clock_after_the_epoch() {
    assert_eq!(event_time(Some(1_700_000_000_000)), Ok(1_700_000_000_000));
    assert_eq!(event_time(Some(-1)), Err(PasswordChangeWorkflowError::AuditLogUnavailable));
    assert_eq!(event_time(None), Err(PasswordChangeWorkflowError::AuditLogUnavailable));
}

#[test]
fn a_committed_change_reports_its_delivery() {
    let ready = OperationalAuditRecoveryState::after_drain(Some((Ready, Ready)));
    let pending = OperationalAuditRecoveryState::after_drain(Some((Pending, Ready)));
    match password_change_result(PasswordChangeOutcome::Changed, "session", ready) {
        PasswordChangeResult::Changed { session, delivery } => {
            assert_eq!(session, "session");
            assert_eq!(delivery, PasswordChangeDelivery::Acknowledged);
        }
        PasswordChangeResult::Denied { .. } => panic!("a changed outcome is changed"),
    }
    match password_change_result(PasswordChangeOutcome::Denied, "session", pending) {
        PasswordChangeResult::Denied { delivery } => assert_eq!(delivery, PasswordChangeDelivery::Pending),
        PasswordChangeResult::Changed { .. } => panic!("a denied outcome is denied"),
    }
}

#[test]
fn an_owner_with_no_activated_database_closes_cleanly() {
    assert_eq!(ActiveDatabase::<()>::default().close(|_| Ok(())), Ok(()));
}

#[test]
fn a_duplicate_shutdown_closes_the_database_exactly_once() {
    let closes = Cell::new(0);
    let mut active = activated(&closes);

    assert_eq!(active.close(counting_close), Ok(()));
    assert_eq!(active.close(counting_close), Ok(()));

    assert_eq!(closes.get(), 1);
    assert_eq!(active.database_available(), Err(DatabaseError::Unavailable));
}

#[test]
fn a_closed_database_refuses_every_later_operation() {
    let closes = Cell::new(0);
    let mut active = activated(&closes);
    assert_eq!(active.database_available(), Ok(()));

    assert_eq!(active.close(counting_close), Ok(()));

    assert_eq!(active.database_available(), Err(DatabaseError::Unavailable));
}

#[test]
fn a_poisoned_lane_is_closed_once_and_reported_as_a_failed_shutdown() {
    let closes = Cell::new(0);
    let mut handle = DatabaseHandle::new(&closes);
    // An operation panicked inside the lane.
    handle.poison();
    let mut active = ActiveDatabase::new();
    active.activate(handle);

    assert_eq!(active.close(counting_close), Err(DatabaseError::Unavailable));
    assert_eq!(active.close(counting_close), Err(DatabaseError::Unavailable));

    assert_eq!(closes.get(), 1);
    assert_eq!(active.database_available(), Err(DatabaseError::Unavailable));
}

#[test]
fn a_failing_backend_close_is_reported() {
    let mut active = ActiveDatabase::new();
    active.activate(DatabaseHandle::new(()));
    assert_eq!(active.close(|_| Err(DatabaseError::IntegrityFailure)), Err(DatabaseError::IntegrityFailure));
    assert_eq!(active.close(|_| Err(DatabaseError::IntegrityFailure)), Ok(()));
}

#[test]
fn database_failures_map_to_lifecycle_categories() {
    assert_eq!(map_database_error(DatabaseError::Unavailable), LifecycleError::DependencyUnavailable);
    assert_eq!(map_database_error(DatabaseError::DeploymentMismatch), LifecycleError::DeploymentMismatch);
    assert_eq!(map_database_error(DatabaseError::AlreadyInitialized), LifecycleError::InvalidState);
    assert_eq!(map_database_error(DatabaseError::Other), LifecycleError::InvalidState);
}

#[test]
fn the_audit_destination_needs_exactly_one_assignment() {
    let configurations = [configuration(1, "log-sqlite", true), configuration(2, "other", true)];
    let sole = [assignment(LogType::System, 2), assignment(LogType::Audit, 1)];
    assert_eq!(
        sole_assigned_configuration(&configurations, &sole, LogType::Audit).map(|c| c.module.as_str()),
        Some("log-sqlite")
    );
    let doubled = [assignment(LogType::Audit, 1), assignment(LogType::Audit, 2)];
    assert!(sole_assigned_configuration(&configurations, &doubled, LogType::Audit).is_none());
    assert_eq!(
        assigned_configuration(&configurations, &doubled, LogType::Audit).map(|c| c.module.as_str()),
        Some("log-sqlite")
    );
    assert!(sole_assigned_configuration(&configurations, &sole, LogType::System).is_some());
    let disabled = [configuration(1, "log-sqlite", false)];
    assert!(sole_assigned_configuration(&disabled, &sole, LogType::Audit).is_none());
}

#[test]
fn the_serving_switch_publishes_whole_modes() {
    let mut switch = ServingModeSwitch::new(ServingMode::FailClosed("fallback"));
    assert_eq!(*switch.current().surface(), "fallback");
    switch.publish_preoperational("preoperational");
    assert_eq!(*switch.current().surface(), "preoperational");
    switch.publish_operational(OperationalMount::compose("operational"));
    assert_eq!(*switch.current().surface(), "operational");
    assert!(matches!(switch.current(), ServingMode::Operational(_)));
    switch.publish_fail_closed("fallback");
    assert!(matches!(switch.current(), ServingMode::FailClosed(_)));
}

#[test]
fn lifecycle_capabilities_are_offered_only_after_selection() {
    assert_eq!(preoperational_offer(false, true), PreoperationalOffer { restore: false, init: false });
    assert_eq!(preoperational_offer(true, true), PreoperationalOffer { restore: true, init: true });
    assert_eq!(preoperational_offer(true, false), PreoperationalOffer { restore: true, init: false });
    assert_eq!(
        mounted_lifecycle_routes(preoperational_offer(true, true), true, false),
        PreoperationalOffer { restore: true, init: false }
    );
    assert!(publishes_finalization(true, true));
    assert!(!publishes_finalization(true, false));
}

#[test]
fn reconciliation_requests_are_screened_and_answered() {
    assert_eq!(reconciliation_precondition(Ok(())), ReconciliationPreBody::Accepted);
    assert_eq!(
        reconciliation_precondition(Err(ReconciliationRejection::RequestOriginDenied)),
        ReconciliationPreBody::RequestOriginDenied
    );
    assert_eq!(
        reconciliation_precondition(Err(ReconciliationRejection::MethodNotAllowed)),
        ReconciliationPreBody::BadRequest
    );
    assert_eq!(reconciliation_outcome(Some(true)), ReconciliationOutcome::Confirmed);
    assert_eq!(reconciliation_outcome(Some(false)), ReconciliationOutcome::NotFound);
    assert_eq!(reconciliation_outcome(None), ReconciliationOutcome::Unavailable);
}

#[test]
fn a_submitted_reconciliation_capability_is_looked_up_by_its_issued_digest() {
    let issued = ReconciliationCapability::from_zeroizing_entropy(SecretEntropy::new([3; 32]));
    let digest = submitted_reconciliation_digest(SecretText::new(issued.as_str().to_owned()));
    assert!(digest.matches(&issued.digest()));
    let other = submitted_reconciliation_digest(SecretText::new("x".repeat(43)));
    assert!(!other.matches(&issued.digest()));
}


#[test]
fn every_delivery_error_maps_to_the_same_payload_free_rejection() {
    let failures = [
        LogDeliveryError::CapabilityUnavailable,
        LogDeliveryError::IntegrityFailure,
        LogDeliveryError::Destination(LogDestinationError::ConfigurationInvalid),
        LogDeliveryError::Destination(LogDestinationError::Unavailable),
        LogDeliveryError::Destination(LogDestinationError::IntegrityFailure),
    ];
    for failure in failures {
        // No System Log destination is configured: nothing is reported.
        let (rejection, report) = reject_consequential_audit_failure(
            failure,
            false,
            true,
            "sqlite",
            "authentication.user.created",
            "correlation-01",
        );
        assert_eq!(rejection, ConsequentialOperationError::AuditLogUnavailable);
        assert!(report.is_none());
    }
}

#[test]
fn a_consequential_failure_records_safe_context_and_returns_one_stable_error() {
    let (rejection, report) = reject_consequential_audit_failure(
        LogDeliveryError::Destination(LogDestinationError::Unavailable),
        true,
        true,
        "sqlite",
        "authentication.user.created",
        "correlation-01",
    );
    assert_eq!(rejection, ConsequentialOperationError::AuditLogUnavailable);
    assert_eq!(rejection.code(), "audit_log_unavailable");
    assert_eq!(rejection.message(), "Audit Log unavailable; operation rejected.");
    let record: AuditFailureRecord = report.expect("one System record is reported");
    assert_eq!(record.classification, b"dependency.audit-log-unavailable".to_vec());
    assert_eq!(
        record.detail,
        b"audit destination module sqlite unavailable for authentication.user.created".to_vec()
    );
    assert_eq!(record.correlation_identifier, b"correlation-01".to_vec());

    let rendered = format!("{} {} {:?}", rejection.code(), rejection.message(), rejection);
    for forbidden in ["sqlite", "database is locked", "authentication.user.created"] {
        assert!(!rendered.contains(forbidden), "{rendered}");
    }
}

#[test]
fn an_unavailable_system_log_does_not_change_the_rejection_or_stop_later_calls() {
    // Each call asks for one delivery; a System Log that then fails to take
    // it changes nothing for the next call.
    let mut deliveries = 0;
    for _ in 0..2 {
        let (rejection, report) = reject_consequential_audit_failure(
            LogDeliveryError::Destination(LogDestinationError::Unavailable),
            true,
            true,
            "sqlite",
            "authentication.user.created",
            "correlation-01",
        );
        assert_eq!(rejection, ConsequentialOperationError::AuditLogUnavailable);
        if report.is_some() {
            deliveries += 1;
        }
    }
    assert_eq!(deliveries, 2);
}

#[test]
fn a_record_that_cannot_be_prepared_is_not_reported() {
    let (rejection, report) = reject_consequential_audit_failure(
        LogDeliveryError::IntegrityFailure,
        true,
        false,
        "sqlite",
        "authentication.user.created",
        "",
    );
    assert_eq!(rejection, ConsequentialOperationError::AuditLogUnavailable);
    assert!(report.is_none());
}

#[test]
fn a_drain_runs_active_obligations_before_late_deliveries() {
    assert_eq!(next_sequence(None), Some(RecoverySequence::Active));
    assert_eq!(next_sequence(Some(RecoverySequence::Active)), Some(RecoverySequence::LateDelivery));
    assert_eq!(next_sequence(Some(RecoverySequence::LateDelivery)), None);
}
