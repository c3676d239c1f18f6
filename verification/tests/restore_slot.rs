use weavelit_server::credentials::{ReconciliationDigest, SecretText};
use weavelit_server::log_assignment::{LogAssignment, LogModuleConfiguration, LogType};
use weavelit_server::restore::{
    admit_artifact_upload, claimed_upload, event_time_milliseconds, map_workflow_error, pre_body_rejection,
    restore_eligibility, restore_rejection, restore_step, retain_submission, submit_recovery_key,
    system_log_configuration, ClaimedRestore, PendingRestore, PendingRestoreSlot,
    PreBodyRejection, RestoreError, RestoreRejection, RestoreStage, RestoreStageResult,
    RestoreStep,
};
use weavelit_server::startup::{LifecycleError, WorkflowError};

/// A recovery key stand-in. No assertion below may ever find it rendered.
const RECOVERY_KEY: &str = "AGE-SECRET-KEY-1TESTONLYRECOVERYKEYMATERIAL";

/// The correlation identifier a retained submission carries.
const CORRELATION: &str = "0123456789abcdef0123456789abcdef";

/// The monotonic reading every test below starts from, in milliseconds.
const NOW: u64 = 1_000_000;

/// The approved upload window used for a live submission.
const UPLOAD_DEADLINE: u64 = 60_000;

/// A distinct ticket digest for each seed.
fn seeded_digest(seed: u8) -> [u8; 32] {
    let mut digest = [0_u8; 32];
    for (index, byte) in digest.iter_mut().enumerate() {
        *byte = seed
            .wrapping_mul(37)
            .wrapping_add(u8::try_from(index).unwrap_or(u8::MAX));
    }
    digest
}

fn retained(digest: [u8; 32], expires_at: u64) -> PendingRestore {
    PendingRestore {
        digest,
        reconciliation_digest: ReconciliationDigest::from_bytes([1; 32]),
        recovery_key: SecretText::new(RECOVERY_KEY.to_owned()),
        correlation_identifier: CORRELATION.to_owned(),
        budget_started_at: NOW,
        expires_at,
    }
}

/// An expiry the slot has not reached yet.
fn live() -> u64 {
    NOW + UPLOAD_DEADLINE
}

/// An expiry every later reading has already reached.
fn already_expired() -> u64 {
    NOW
}

fn claim_rejection(slot: &mut PendingRestoreSlot, digest: &[u8; 32]) -> PreBodyRejection {
    slot.claim(digest, NOW)
        .err()
        .expect("the claim must have been rejected")
}

#[test]
fn a_ticket_is_claimable_exactly_once() {
    let mut slot = PendingRestoreSlot::default();
    let ticket = seeded_digest(1);
    slot.issue(retained(ticket, live()), NOW)
        .expect("the first submission is retained");

    let claimed = slot
        .claim(&ticket, NOW)
        .ok()
        .expect("the issuing ticket claims its own submission");
    assert_eq!(claimed.recovery_key.as_str(), RECOVERY_KEY);
    assert_eq!(claimed.correlation_identifier, CORRELATION);

    assert_eq!(claim_rejection(&mut slot, &ticket), PreBodyRejection::RestoreTicketInvalid);
}

#[test]
fn a_replayed_ticket_finds_the_recovery_key_already_destroyed() {
    let mut slot = PendingRestoreSlot::default();
    let ticket = seeded_digest(2);
    slot.issue(retained(ticket, live()), NOW)
        .expect("the first submission is retained");

    let claimed = slot.claim(&ticket, NOW).ok().expect("the first claim wins");
    assert!(!slot.retains_submission());
    drop(claimed);

    assert_eq!(claim_rejection(&mut slot, &ticket), PreBodyRejection::RestoreTicketInvalid);
    assert!(!slot.retains_submission());
}

#[test]
fn a_wrong_ticket_destroys_the_outstanding_submission() {
    let mut slot = PendingRestoreSlot::default();
    let issued = seeded_digest(3);
    let wrong = seeded_digest(4);
    slot.issue(retained(issued, live()), NOW)
        .expect("the submission is retained");

    assert_eq!(claim_rejection(&mut slot, &wrong), PreBodyRejection::RestoreTicketInvalid);
    assert!(!slot.retains_submission());
    assert_eq!(claim_rejection(&mut slot, &issued), PreBodyRejection::RestoreTicketInvalid);
}

#[test]
fn two_concurrent_claims_admit_exactly_one() {
    // The slot takes its claims through an exclusive borrow, so two claims are
    // always ordered; whichever runs first wins and the other is refused.
    for attempt in 0..64_u8 {
        let mut slot = PendingRestoreSlot::default();
        let ticket = seeded_digest(attempt);
        slot.issue(retained(ticket, live()), NOW)
            .expect("the submission is retained");

        let outcomes = [
            slot.claim(&ticket, NOW)
                .map(|claimed| claimed.recovery_key.as_str() == RECOVERY_KEY),
            slot.claim(&ticket, NOW)
                .map(|claimed| claimed.recovery_key.as_str() == RECOVERY_KEY),
        ];

        let claimed: Vec<_> = outcomes.iter().filter_map(|outcome| outcome.as_ref().ok()).collect();
        assert_eq!(claimed.len(), 1, "attempt {attempt}");
        assert_eq!(claimed[0], &true, "attempt {attempt}");
        let rejected: Vec<_> = outcomes.iter().filter_map(|outcome| outcome.as_ref().err()).collect();
        assert_eq!(rejected, vec![&PreBodyRejection::RestoreTicketInvalid], "attempt {attempt}");
        assert!(!slot.retains_submission(), "attempt {attempt}");
    }
}

#[test]
fn an_expired_submission_is_destroyed_and_a_new_one_is_then_permitted() {
    let mut slot = PendingRestoreSlot::default();
    let abandoned = seeded_digest(5);
    slot.issue(retained(abandoned, already_expired()), NOW)
        .expect("the abandoned submission is retained");

    // A digest that is not the retained one destroys nothing.
    slot.expire(&seeded_digest(6), NOW);
    assert!(slot.retains_submission());

    // Its own scheduled expiry destroys it.
    slot.expire(&abandoned, NOW);
    assert!(!slot.retains_submission());

    let replacement = seeded_digest(7);
    slot.issue(retained(replacement, live()), NOW)
        .expect("a new submission is permitted once the slot is free");
    assert!(slot.claim(&replacement, NOW).is_ok());
}

#[test]
fn a_live_submission_is_never_destroyed_by_an_expiry_sweep() {
    let mut slot = PendingRestoreSlot::default();
    let ticket = seeded_digest(8);
    slot.issue(retained(ticket, live()), NOW)
        .expect("the submission is retained");

    slot.expire(&ticket, NOW);
    assert!(
        slot.claim(&ticket, NOW).is_ok(),
        "an unexpired submission survives its own digest's sweep"
    );
}

#[test]
fn issuing_while_a_live_submission_is_outstanding_is_rejected() {
    let mut slot = PendingRestoreSlot::default();
    let outstanding = seeded_digest(9);
    slot.issue(retained(outstanding, live()), NOW)
        .expect("the first submission is retained");

    let intruder = seeded_digest(10);
    assert_eq!(
        slot.issue(retained(intruder, live()), NOW).unwrap_err(),
        RestoreError::RestorePending
    );

    let claimed = slot
        .claim(&outstanding, NOW)
        .ok()
        .expect("the outstanding submission survives a rejected issue");
    assert_eq!(claimed.recovery_key.as_str(), RECOVERY_KEY);
}

#[test]
fn a_ticket_claimed_at_its_expiry_instant_is_refused() {
    let mut slot = PendingRestoreSlot::new();
    let ticket = seeded_digest(11);
    slot.issue(retained(ticket, NOW + 5), NOW).unwrap();
    assert_eq!(
        slot.claim(&ticket, NOW + 5).err(),
        Some(PreBodyRejection::RestoreTicketInvalid)
    );
    assert!(!slot.retains_submission());
}

#[test]
fn issuing_over_an_expired_submission_replaces_it() {
    let mut slot = PendingRestoreSlot::new();
    slot.issue(retained(seeded_digest(12), NOW), NOW).unwrap();
    let fresh = seeded_digest(13);
    assert_eq!(slot.issue(retained(fresh, live()), NOW + 1), Ok(()));
    assert!(slot.claim(&fresh, NOW + 1).is_ok());
}

#[test]
fn a_key_submission_issues_a_ticket_bounded_by_the_remaining_budget() {
    let mut slot = PendingRestoreSlot::new();
    let ticket = seeded_digest(14);
    let (capability, expires_at) = submit_recovery_key(
        &mut slot,
        ticket,
        SecretText::new(RECOVERY_KEY.to_owned()),
        CORRELATION.to_owned(),
        NOW,
        Some(10_000),
        UPLOAD_DEADLINE,
        NOW,
    )
    .ok()
    .expect("a fresh slot retains the submission");
    assert_eq!(expires_at, NOW + 10_000);
    let claimed = slot.claim(&ticket, NOW + 9_999).ok().expect("the ticket is still live");
    assert!(claimed.reconciliation_digest.matches(&capability.digest()));
    assert_eq!(claimed.recovery_key.as_str(), RECOVERY_KEY);
}

#[test]
fn a_key_submission_with_a_large_budget_is_bounded_by_the_upload_deadline() {
    let mut slot = PendingRestoreSlot::new();
    let result = submit_recovery_key(
        &mut slot,
        seeded_digest(15),
        SecretText::new(RECOVERY_KEY.to_owned()),
        CORRELATION.to_owned(),
        NOW,
        Some(UPLOAD_DEADLINE * 5),
        UPLOAD_DEADLINE,
        NOW,
    );
    assert_eq!(result.ok().map(|(_, expires_at)| expires_at), Some(NOW + UPLOAD_DEADLINE));
}

#[test]
fn a_key_submission_after_the_budget_is_spent_fails() {
    let mut slot = PendingRestoreSlot::new();
    let result = submit_recovery_key(
        &mut slot,
        seeded_digest(16),
        SecretText::new(RECOVERY_KEY.to_owned()),
        CORRELATION.to_owned(),
        NOW,
        None,
        UPLOAD_DEADLINE,
        NOW,
    );
    assert_eq!(result.err(), Some(RestoreRejection::RestoreFailed));
    assert!(!slot.retains_submission());
}

#[test]
fn a_key_submission_while_another_is_live_is_pending() {
    let mut slot = PendingRestoreSlot::new();
    slot.issue(retained(seeded_digest(17), live()), NOW).unwrap();
    let result = submit_recovery_key(
        &mut slot,
        seeded_digest(18),
        SecretText::new(RECOVERY_KEY.to_owned()),
        CORRELATION.to_owned(),
        NOW,
        Some(UPLOAD_DEADLINE),
        UPLOAD_DEADLINE,
        NOW,
    );
    assert_eq!(result.err(), Some(RestoreRejection::RestorePending));
    assert!(slot.claim(&seeded_digest(17), NOW).is_ok());
}

#[test]
fn an_invalid_upload_head_leaves_the_submission_in_place() {
    let mut slot = PendingRestoreSlot::new();
    let ticket = seeded_digest(19);
    slot.issue(retained(ticket, live()), NOW).unwrap();
    let refused = admit_artifact_upload(&mut slot, Err(RestoreRejection::RequestOriginDenied), NOW);
    assert_eq!(refused.err(), Some(PreBodyRejection::RequestOriginDenied));
    assert!(slot.retains_submission());
    let admitted = admit_artifact_upload(&mut slot, Ok(ticket), NOW);
    assert!(admitted.is_ok());
    assert!(!slot.retains_submission());
}

#[test]
fn a_claimed_upload_is_taken_once() {
    let mut claimed = ClaimedRestore::new(retained(seeded_digest(20), live()));
    let first = claimed_upload(&mut claimed, true);
    assert_eq!(first.ok().map(|p| p.correlation_identifier), Some(CORRELATION.to_owned()));
    assert_eq!(claimed_upload(&mut claimed, true).err(), Some(RestoreRejection::RestoreTicketInvalid));

    let mut unadmitted = ClaimedRestore::new(retained(seeded_digest(21), live()));
    assert_eq!(claimed_upload(&mut unadmitted, false).err(), Some(RestoreRejection::RestoreFailed));
    assert!(unadmitted.take().is_none());
}

#[test]
fn restore_failures_map_to_their_documented_rejections() {
    assert_eq!(restore_rejection(RestoreError::RecoveryKeyInvalid), RestoreRejection::RecoveryKeyInvalid);
    assert_eq!(restore_rejection(RestoreError::BackupInvalid), RestoreRejection::BackupInvalid);
    assert_eq!(restore_rejection(RestoreError::BackupIncompatible), RestoreRejection::BackupIncompatible);
    assert_eq!(restore_rejection(RestoreError::RestorePending), RestoreRejection::RestorePending);
    assert_eq!(
        restore_rejection(RestoreError::Lifecycle(LifecycleError::InvalidState)),
        RestoreRejection::RestoreNotAllowed
    );
    assert_eq!(
        restore_rejection(RestoreError::Lifecycle(LifecycleError::Persistence)),
        RestoreRejection::ServiceUnavailable
    );
    assert_eq!(restore_rejection(RestoreError::RestoreFailed), RestoreRejection::RestoreFailed);
}

#[test]
fn route_rejections_map_onto_the_transport_set() {
    assert_eq!(pre_body_rejection(RestoreRejection::RequestOriginDenied), PreBodyRejection::RequestOriginDenied);
    assert_eq!(pre_body_rejection(RestoreRejection::RestoreTicketInvalid), PreBodyRejection::RestoreTicketInvalid);
    assert_eq!(pre_body_rejection(RestoreRejection::RestoreNotAllowed), PreBodyRejection::RestoreNotAllowed);
    assert_eq!(pre_body_rejection(RestoreRejection::RequestInvalid), PreBodyRejection::BadRequest);
    assert_eq!(pre_body_rejection(RestoreRejection::BackupInvalid), PreBodyRejection::BadRequest);
}

#[test]
fn workflow_failures_map_to_restore_failures() {
    assert_eq!(
        map_workflow_error(WorkflowError::Lifecycle(LifecycleError::LockContended)),
        RestoreError::Lifecycle(LifecycleError::LockContended)
    );
    assert_eq!(map_workflow_error(WorkflowError::AlreadyPending), RestoreError::RestorePending);
    assert_eq!(
        map_workflow_error(WorkflowError::Other),
        RestoreError::Lifecycle(LifecycleError::InvalidState)
    );
}

#[test]
fn restore_is_eligible_only_uninitialized_with_a_selected_database() {
    assert_eq!(restore_eligibility(true, Some(true)), Ok(()));
    assert_eq!(restore_eligibility(true, Some(false)), Err(PreBodyRejection::RestoreNotAllowed));
    assert_eq!(restore_eligibility(true, None), Err(PreBodyRejection::RestoreNotAllowed));
    assert_eq!(restore_eligibility(false, Some(true)), Err(PreBodyRejection::RestoreNotAllowed));
}

#[test]
fn the_restore_chain_publishes_fail_closed_only_when_it_passes_the_gate() {
    match restore_step(RestoreStage::CheckBudget, RestoreStageResult::Done) {
        RestoreStep::Continue { next, publish_fail_closed } => {
            assert_eq!(next, RestoreStage::EnterGate);
            assert!(!publish_fail_closed);
        }
        RestoreStep::Finish { .. } => panic!("a checked budget continues"),
    }
    match restore_step(RestoreStage::EnterGate, RestoreStageResult::Done) {
        RestoreStep::Continue { next, publish_fail_closed } => {
            assert_eq!(next, RestoreStage::ReplaceState);
            assert!(publish_fail_closed);
        }
        RestoreStep::Finish { .. } => panic!("an entered gate continues"),
    }
    match restore_step(RestoreStage::Activate, RestoreStageResult::Done) {
        RestoreStep::Finish { result, leave_gate } => {
            assert_eq!(result, Ok(()));
            assert!(leave_gate);
        }
        RestoreStep::Continue { .. } => panic!("activation ends the chain"),
    }
}

#[test]
fn the_restore_chain_reports_each_failure_category() {
    let finish = |stage, result| match restore_step(stage, result) {
        RestoreStep::Finish { result, leave_gate } => (result, leave_gate),
        RestoreStep::Continue { .. } => panic!("a failure ends the chain"),
    };
    assert_eq!(
        finish(RestoreStage::Authorize, RestoreStageResult::WorkflowFailed(WorkflowError::AlreadyPending)),
        (Err(RestoreError::RestorePending), false)
    );
    assert_eq!(
        finish(RestoreStage::Validate, RestoreStageResult::Failed(RestoreError::RecoveryKeyInvalid)),
        (Err(RestoreError::RecoveryKeyInvalid), false)
    );
    assert_eq!(
        finish(RestoreStage::ResolveLogModule, RestoreStageResult::Failed(RestoreError::RestoreFailed)),
        (Err(RestoreError::BackupIncompatible), false)
    );
    assert_eq!(
        finish(RestoreStage::EnterGate, RestoreStageResult::Failed(RestoreError::RestoreFailed)),
        (Err(RestoreError::RestoreFailed), false)
    );
    assert_eq!(
        finish(
            RestoreStage::ReplaceState,
            RestoreStageResult::WorkflowFailed(WorkflowError::Lifecycle(LifecycleError::Persistence))
        ),
        (Err(RestoreError::Lifecycle(LifecycleError::Persistence)), true)
    );
}

#[test]
fn the_system_log_configuration_is_the_first_assignments_enabled_one() {
    let configurations = [
        LogModuleConfiguration { identifier: [1; 16], module: "log-sqlite".to_owned(), enabled: false },
        LogModuleConfiguration { identifier: [2; 16], module: "log-sqlite".to_owned(), enabled: true },
        LogModuleConfiguration { identifier: [2; 16], module: "second".to_owned(), enabled: true },
    ];
    let assignments = [
        LogAssignment { log_type: LogType::Audit, configuration: [1; 16] },
        LogAssignment { log_type: LogType::System, configuration: [2; 16] },
        LogAssignment { log_type: LogType::System, configuration: [1; 16] },
    ];
    let found = system_log_configuration(&configurations, &assignments)
        .ok()
        .expect("the system log is assigned");
    assert_eq!(found.module, "log-sqlite");
    assert_eq!(found.identifier, [2; 16]);

    let disabled_only = [LogAssignment { log_type: LogType::System, configuration: [1; 16] }];
    assert_eq!(
        system_log_configuration(&configurations, &disabled_only).err(),
        Some(RestoreError::BackupIncompatible)
    );
    assert_eq!(
        system_log_configuration(&configurations, &[]).err(),
        Some(RestoreError::BackupIncompatible)
    );
}

#[test]
fn a_completion_time_must_fit_signed_milliseconds() {
    assert_eq!(event_time_milliseconds(Some(1_700_000_000_000)), Ok(1_700_000_000_000));
    assert_eq!(event_time_milliseconds(Some(i64::MAX as u128)), Ok(i64::MAX));
    assert_eq!(event_time_milliseconds(Some(i64::MAX as u128 + 1)), Err(RestoreError::RestoreFailed));
    assert_eq!(event_time_milliseconds(None), Err(RestoreError::RestoreFailed));
}

#[test]
fn a_submission_without_entropy_fails_and_retains_nothing() {
    let mut slot = PendingRestoreSlot::new();
    let result = retain_submission(
        &mut slot,
        seeded_digest(22),
        SecretText::new(RECOVERY_KEY.to_owned()),
        CORRELATION.to_owned(),
        NOW,
        Some(UPLOAD_DEADLINE),
        None,
        UPLOAD_DEADLINE,
        NOW,
    );
    assert_eq!(result.err(), Some(RestoreRejection::RestoreFailed));
    assert!(!slot.retains_submission());
}

#[test]
fn a_retained_submission_carries_the_capability_minted_from_its_entropy() {
    let mut slot = PendingRestoreSlot::new();
    let ticket = seeded_digest(23);
    let (capability, expires_at) = retain_submission(
        &mut slot,
        ticket,
        SecretText::new(RECOVERY_KEY.to_owned()),
        CORRELATION.to_owned(),
        NOW,
        Some(UPLOAD_DEADLINE),
        Some([0; 32]),
        UPLOAD_DEADLINE,
        NOW,
    )
    .ok()
    .expect("an empty slot retains the submission");
    assert_eq!(capability.as_str(), "AAAAAAAAAAAAAAAAAAAAAAAAAAAAAAAAAAAAAAAAAAA");
    assert_eq!(expires_at, NOW + UPLOAD_DEADLINE);
    let claimed = slot.claim(&ticket, NOW).ok().expect("the ticket claims it");
    assert!(claimed.reconciliation_digest.matches(&capability.digest()));
}
