//! The two-step Restore submission protocol: the one-time ticket slot that
//! retains a submitted recovery key until its artifact upload claims it, and
//! the stable mappings from Restore failures onto route rejections.
//!
//! Instants and durations here are readings of one monotonic clock, taken by
//! the caller and handed in, so every rule below holds for every reading.
use vstd::prelude::*;
use crate::startup::{LifecycleError, WorkflowError};
use crate::log_assignment::{
    LogAssignment, LogModuleConfiguration, LogType, assigned_configuration, has_served,
    is_first_assignment, is_first_served,
};
use crate::credentials::{
    digests_equal, random_entropy, ReconciliationCapability, SecretEntropy, base64_url_text,
    ReconciliationDigest, SecretText, canonical_credential, domain_digest,
    reconciliation_domain,
};

verus! {

/// Stable Restore failure categories.
#[derive(Clone, Copy, Debug, PartialEq, Eq, Structural)]
pub enum RestoreError {
    RecoveryKeyInvalid,
    BackupInvalid,
    BackupIncompatible,
    RestorePending,
    Lifecycle(LifecycleError),
    RestoreFailed,
}

/// The documented rejections of the Restore routes.
#[derive(Clone, Copy, Debug, PartialEq, Eq, Structural)]
pub enum RestoreRejection {
    RequestOriginDenied,
    /// The request head is malformed.
    RequestInvalid,
    RestoreTicketInvalid,
    RestoreNotAllowed,
    RecoveryKeyInvalid,
    BackupInvalid,
    BackupIncompatible,
    RestorePending,
    ServiceUnavailable,
    RestoreFailed,
}

/// The transport's closed set of rejections before a body is read.
#[derive(Clone, Copy, Debug, PartialEq, Eq, Structural)]
pub enum PreBodyRejection {
    RequestOriginDenied,
    RestoreTicketInvalid,
    RestoreNotAllowed,
    BadRequest,
}

pub open spec fn pre_body_rejection_for(rejection: RestoreRejection) -> PreBodyRejection {
    match rejection {
        RestoreRejection::RequestOriginDenied => PreBodyRejection::RequestOriginDenied,
        RestoreRejection::RestoreTicketInvalid => PreBodyRejection::RestoreTicketInvalid,
        RestoreRejection::RestoreNotAllowed => PreBodyRejection::RestoreNotAllowed,
        _ => PreBodyRejection::BadRequest,
    }
}

/// Maps a route-level rejection onto the transport's closed rejection set.
pub fn pre_body_rejection(rejection: RestoreRejection) -> (mapped: PreBodyRejection)
    ensures
        mapped == pre_body_rejection_for(rejection),
{
    match rejection {
        RestoreRejection::RequestOriginDenied => PreBodyRejection::RequestOriginDenied,
        RestoreRejection::RestoreTicketInvalid => PreBodyRejection::RestoreTicketInvalid,
        RestoreRejection::RestoreNotAllowed => PreBodyRejection::RestoreNotAllowed,
        _ => PreBodyRejection::BadRequest,
    }
}

pub open spec fn restore_rejection_for(error: RestoreError) -> RestoreRejection {
    match error {
        RestoreError::RecoveryKeyInvalid => RestoreRejection::RecoveryKeyInvalid,
        RestoreError::BackupInvalid => RestoreRejection::BackupInvalid,
        RestoreError::BackupIncompatible => RestoreRejection::BackupIncompatible,
        RestoreError::RestorePending => RestoreRejection::RestorePending,
        RestoreError::Lifecycle(LifecycleError::InvalidState) => RestoreRejection::RestoreNotAllowed,
        RestoreError::Lifecycle(_) => RestoreRejection::ServiceUnavailable,
        RestoreError::RestoreFailed => RestoreRejection::RestoreFailed,
    }
}

/// Maps a stable Restore failure onto its documented route rejection.
pub fn restore_rejection(error: RestoreError) -> (rejection: RestoreRejection)
    ensures
        rejection == restore_rejection_for(error),
{
    match error {
        RestoreError::RecoveryKeyInvalid => RestoreRejection::RecoveryKeyInvalid,
        RestoreError::BackupInvalid => RestoreRejection::BackupInvalid,
        RestoreError::BackupIncompatible => RestoreRejection::BackupIncompatible,
        RestoreError::RestorePending => RestoreRejection::RestorePending,
        RestoreError::Lifecycle(LifecycleError::InvalidState) => RestoreRejection::RestoreNotAllowed,
        RestoreError::Lifecycle(_) => RestoreRejection::ServiceUnavailable,
        RestoreError::RestoreFailed => RestoreRejection::RestoreFailed,
    }
}

pub open spec fn workflow_restore_error(error: WorkflowError) -> RestoreError {
    match error {
        WorkflowError::Lifecycle(e) => RestoreError::Lifecycle(e),
        WorkflowError::AlreadyPending => RestoreError::RestorePending,
        WorkflowError::Other => RestoreError::Lifecycle(LifecycleError::InvalidState),
    }
}

/// Maps a lifecycle workflow failure to a stable Restore failure category.
pub fn map_workflow_error(error: WorkflowError) -> (mapped: RestoreError)
    ensures
        mapped == workflow_restore_error(error),
{
    match error {
        WorkflowError::Lifecycle(error) => RestoreError::Lifecycle(error),
        WorkflowError::AlreadyPending => RestoreError::RestorePending,
        WorkflowError::Other => RestoreError::Lifecycle(LifecycleError::InvalidState),
    }
}

/// A retained recovery-key submission awaiting its artifact upload.
///
/// Only the ticket's digest is held, never the ticket. The recovery key is
/// owned by a clearing owner, so every path that drops this value clears it.
pub struct PendingRestore {
    /// Digest of the one-time ticket that claims this submission.
    pub digest: [u8; 32],
    pub reconciliation_digest: ReconciliationDigest,
    pub recovery_key: SecretText,
    pub correlation_identifier: String,
    /// The instant the request budget started, before the key was read.
    pub budget_started_at: u64,
    /// The instant from which the ticket no longer claims anything.
    pub expires_at: u64,
}

/// The single outstanding pending Restore.
///
/// At most one submission is retained. Issuing while a live one is held is
/// rejected, and every claim consumes the entry whether or not it succeeds.
pub struct PendingRestoreSlot {
    entry: Option<PendingRestore>,
}

impl View for PendingRestoreSlot {
    type V = Option<PendingRestore>;

    closed spec fn view(&self) -> Option<PendingRestore> {
        self.entry
    }
}

/// A held submission that has not expired at `now`.
pub open spec fn is_live(held: Option<PendingRestore>, now: u64) -> bool {
    held matches Some(p) && p.expires_at > now
}

/// What the slot holds after an issue, and what the issue returns.
pub open spec fn issue_outcome(held: Option<PendingRestore>, pending: PendingRestore, now: u64) -> (Option<PendingRestore>, Result<(), RestoreError>) {
    if is_live(held, now) {
        (held, Err(RestoreError::RestorePending))
    } else {
        (Some(pending), Ok(()))
    }
}

/// What a claim with the submitted ticket digest returns; the slot is empty
/// afterwards whatever it returns.
pub open spec fn claim_outcome(held: Option<PendingRestore>, submitted: Seq<u8>, now: u64) -> Result<PendingRestore, PreBodyRejection> {
    match held {
        Some(p) => if p.digest@ == submitted && p.expires_at > now {
            Ok(p)
        } else {
            Err(PreBodyRejection::RestoreTicketInvalid)
        },
        None => Err(PreBodyRejection::RestoreTicketInvalid),
    }
}

/// What the slot holds after the expiry sweep for one ticket digest.
pub open spec fn expire_outcome(held: Option<PendingRestore>, digest: Seq<u8>, now: u64) -> Option<PendingRestore> {
    match held {
        Some(p) => if p.digest@ == digest && p.expires_at <= now { None } else { held },
        None => held,
    }
}

impl PendingRestoreSlot {
    /// An empty slot.
    pub fn new() -> (slot: Self)
        ensures
            slot@ is None,
    {
        PendingRestoreSlot { entry: None }
    }

    /// Retains one submission, rejecting a second live one.
    ///
    /// Replacing an expired entry drops it, clearing its recovery key.
    pub fn issue(&mut self, pending: PendingRestore, now: u64) -> (r: Result<(), RestoreError>)
        ensures
            (final(self)@, r) == issue_outcome(old(self)@, pending, now),
    {
        let live = match &self.entry {
            Some(held) => held.expires_at > now,
            None => false,
        };
        if live {
            return Err(RestoreError::RestorePending);
        }
        self.entry = Some(pending);
        Ok(())
    }

    /// Consumes the outstanding submission and returns it only to its ticket.
    ///
    /// The entry is taken before the digest is compared, so a failed claim is
    /// not retryable: the recovery key is dropped whichever check refused it.
    pub fn claim(&mut self, submitted: &[u8; 32], now: u64) -> (r: Result<PendingRestore, PreBodyRejection>)
        ensures
            final(self)@ is None,
            r == claim_outcome(old(self)@, submitted@, now),
    {
        let pending = self.entry.take();
        match pending {
            None => Err(PreBodyRejection::RestoreTicketInvalid),
            Some(p) => {
                if !digests_equal(&p.digest, submitted) || p.expires_at <= now {
                    Err(PreBodyRejection::RestoreTicketInvalid)
                } else {
                    Ok(p)
                }
            },
        }
    }

    /// Destroys the outstanding submission once its own ticket has expired.
    pub fn expire(&mut self, digest: &[u8; 32], now: u64)
        ensures
            final(self)@ == expire_outcome(old(self)@, digest@, now),
    {
        let expired = match &self.entry {
            Some(held) => digests_equal(&held.digest, digest) && held.expires_at <= now,
            None => false,
        };
        if expired {
            self.entry = None;
        }
    }

    /// Whether a submission is retained, live or not.
    pub fn retains_submission(&self) -> (held: bool)
        ensures
            held == self@ is Some,
    {
        self.entry.is_some()
    }
}

impl Default for PendingRestoreSlot {
    fn default() -> (slot: Self)
        ensures
            slot@ is None,
    {
        PendingRestoreSlot::new()
    }
}

/// The claimed submission an admitted artifact upload carries to its handler.
pub struct ClaimedRestore {
    pending: Option<PendingRestore>,
}

impl View for ClaimedRestore {
    type V = Option<PendingRestore>;

    closed spec fn view(&self) -> Option<PendingRestore> {
        self.pending
    }
}

impl ClaimedRestore {
    pub fn new(pending: PendingRestore) -> (claimed: Self)
        ensures
            claimed@ == Some(pending),
    {
        ClaimedRestore { pending: Some(pending) }
    }

    /// Takes the claimed submission; only the first call finds it.
    pub fn take(&mut self) -> (taken: Option<PendingRestore>)
        ensures
            taken == old(self)@,
            final(self)@ is None,
    {
        self.pending.take()
    }
}

/// The instant a newly issued ticket expires: the upload deadline, cut to
/// what remains of the request budget.
pub open spec fn ticket_expiry(now: u64, upload_deadline: u64, remaining: u64) -> int {
    now + if upload_deadline < remaining { upload_deadline } else { remaining }
}

/// What a retained submission holds.
pub open spec fn retains(p: PendingRestore, ticket_digest: [u8; 32], capability: Seq<char>, recovery_key: SecretText, correlation_identifier: String, budget_started_at: u64, expires_at: u64) -> bool {
    &&& p.digest == ticket_digest
    &&& p.reconciliation_digest@ == domain_digest(reconciliation_domain(), capability)
    &&& p.recovery_key == recovery_key
    &&& p.correlation_identifier == correlation_identifier
    &&& p.budget_started_at == budget_started_at
    &&& p.expires_at == expires_at
}

/// Retains a submitted recovery key under its ticket's digest, with the
/// reconciliation capability minted from `entropy`.
///
/// `remaining` is what is left of the request budget, `None` once it is
/// spent; `entropy` is what the operating system supplied, `None` when it
/// supplied none. Either absence fails the Restore; a live submission already
/// held makes it pending. A refused submission leaves the slot as it was.
pub fn retain_submission(
    slot: &mut PendingRestoreSlot,
    ticket_digest: [u8; 32],
    recovery_key: SecretText,
    correlation_identifier: String,
    budget_started_at: u64,
    remaining: Option<u64>,
    entropy: Option<[u8; 32]>,
    upload_deadline: u64,
    now: u64,
) -> (r: Result<(ReconciliationCapability, u64), RestoreRejection>)
    requires
        now + upload_deadline <= u64::MAX,
    ensures
        match (remaining, entropy) {
            (Some(left), Some(bytes)) => if is_live(old(slot)@, now) {
                r == Err::<(ReconciliationCapability, u64), RestoreRejection>(RestoreRejection::RestorePending)
                    && final(slot)@ == old(slot)@
            } else {
                r matches Ok((capability, expires_at)) && {
                    &&& expires_at == ticket_expiry(now, upload_deadline, left)
                    &&& capability@ == base64_url_text(bytes@)
                    &&& canonical_credential(capability@)
                    &&& final(slot)@ matches Some(p) && retains(p, ticket_digest, capability@, recovery_key,
                        correlation_identifier, budget_started_at, expires_at)
                }
            },
            _ => r == Err::<(ReconciliationCapability, u64), RestoreRejection>(RestoreRejection::RestoreFailed)
                && final(slot)@ == old(slot)@,
        },
{
    let left = match remaining {
        Some(left) => left,
        None => return Err(RestoreRejection::RestoreFailed),
    };
    let bytes = match entropy {
        Some(bytes) => bytes,
        None => return Err(RestoreRejection::RestoreFailed),
    };
    let sealed = SecretEntropy::new(bytes);
    let reconciliation = ReconciliationCapability::from_zeroizing_entropy(sealed);
    let reconciliation_digest = reconciliation.digest();
    let window = if upload_deadline < left { upload_deadline } else { left };
    let expires_at = now + window;
    let issued = slot.issue(
        PendingRestore {
            digest: ticket_digest,
            reconciliation_digest,
            recovery_key,
            correlation_identifier,
            budget_started_at,
            expires_at,
        },
        now,
    );
    match issued {
        Ok(()) => Ok((reconciliation, expires_at)),
        Err(error) => Err(restore_rejection(error)),
    }
}

/// Retains a submitted recovery key, drawing the reconciliation capability's
/// entropy from the operating system; see [`retain_submission`], which
/// decides for whatever the operating system supplied.
pub fn submit_recovery_key(
    slot: &mut PendingRestoreSlot,
    ticket_digest: [u8; 32],
    recovery_key: SecretText,
    correlation_identifier: String,
    budget_started_at: u64,
    remaining: Option<u64>,
    upload_deadline: u64,
    now: u64,
) -> (r: Result<(ReconciliationCapability, u64), RestoreRejection>)
    requires
        now + upload_deadline <= u64::MAX,
    ensures
        remaining is None ==> r == Err::<(ReconciliationCapability, u64), RestoreRejection>(RestoreRejection::RestoreFailed),
        r is Err ==> final(slot)@ == old(slot)@,
        r matches Err(e) ==> (e == RestoreRejection::RestoreFailed || e == RestoreRejection::RestorePending),
        r matches Err(e) && e == RestoreRejection::RestorePending ==> is_live(old(slot)@, now),
        r matches Ok((capability, expires_at)) ==> {
            &&& remaining matches Some(left) && expires_at == ticket_expiry(now, upload_deadline, left)
            &&& !is_live(old(slot)@, now)
            &&& canonical_credential(capability@)
            &&& final(slot)@ matches Some(p) && retains(p, ticket_digest, capability@, recovery_key,
                correlation_identifier, budget_started_at, expires_at)
        },
{
    let entropy = random_entropy();
    retain_submission(
        slot,
        ticket_digest,
        recovery_key,
        correlation_identifier,
        budget_started_at,
        remaining,
        entropy,
        upload_deadline,
        now,
    )
}

/// The artifact upload's pre-body check: the head is validated first, and
/// only a valid head claims the ticket, so a malformed or foreign request
/// leaves the outstanding submission in place.
///
/// `head` is the outcome of the Client Module's head validation, carrying the
/// digest of the submitted ticket when the head is valid.
pub fn admit_artifact_upload(
    slot: &mut PendingRestoreSlot,
    head: Result<[u8; 32], RestoreRejection>,
    now: u64,
) -> (r: Result<PendingRestore, PreBodyRejection>)
    ensures
        match head {
            Err(rejection) => r == Err::<PendingRestore, PreBodyRejection>(pre_body_rejection_for(rejection))
                && final(slot)@ == old(slot)@,
            Ok(digest) => r == claim_outcome(old(slot)@, digest@, now) && final(slot)@ is None,
        },
{
    match head {
        Err(rejection) => Err(pre_body_rejection(rejection)),
        Ok(digest) => slot.claim(&digest, now),
    }
}

/// A submission issued while no live one is held is handed to the claim of
/// its own ticket before it expires, and no claim after that finds anything.
pub proof fn lemma_ticket_claims_its_submission_once(held: Option<PendingRestore>, pending: PendingRestore, now: u64, at: u64, replay_at: u64, replayed: Seq<u8>)
    requires
        !is_live(held, now),
        at < pending.expires_at,
    ensures
        issue_outcome(held, pending, now) == (Some(pending), Ok::<(), RestoreError>(())),
        claim_outcome(Some(pending), pending.digest@, at) == Ok::<PendingRestore, PreBodyRejection>(pending),
        claim_outcome(None, replayed, replay_at) == Err::<PendingRestore, PreBodyRejection>(PreBodyRejection::RestoreTicketInvalid),
{
}

/// A claim with any other ticket is refused, and (the slot being empty after
/// every claim) the issued ticket then opens nothing either.
pub proof fn lemma_wrong_ticket_destroys_submission(pending: PendingRestore, wrong: Seq<u8>, now: u64, later: u64)
    requires
        wrong != pending.digest@,
    ensures
        claim_outcome(Some(pending), wrong, now) == Err::<PendingRestore, PreBodyRejection>(PreBodyRejection::RestoreTicketInvalid),
        claim_outcome(None, pending.digest@, later) == Err::<PendingRestore, PreBodyRejection>(PreBodyRejection::RestoreTicketInvalid),
{
}

/// An expired ticket claims nothing, even its own submission.
pub proof fn lemma_expired_ticket_claims_nothing(pending: PendingRestore, now: u64)
    requires
        pending.expires_at <= now,
    ensures
        claim_outcome(Some(pending), pending.digest@, now) == Err::<PendingRestore, PreBodyRejection>(PreBodyRejection::RestoreTicketInvalid),
{
}

/// Issuing while a live submission is held is refused and neither replaces
/// nor destroys the held one.
pub proof fn lemma_issue_while_live_is_refused(held: Option<PendingRestore>, intruder: PendingRestore, now: u64)
    requires
        is_live(held, now),
    ensures
        issue_outcome(held, intruder, now) == (held, Err::<(), RestoreError>(RestoreError::RestorePending)),
{
}

/// The expiry sweep destroys a submission only when its own ticket has
/// expired; a live one, or another ticket's sweep, leaves it in place.
pub proof fn lemma_expiry_sweep(pending: PendingRestore, digest: Seq<u8>, now: u64)
    ensures
        (digest == pending.digest@ && pending.expires_at <= now) ==> expire_outcome(Some(pending), digest, now) is None,
        (digest != pending.digest@ || pending.expires_at > now) ==> expire_outcome(Some(pending), digest, now) == Some(pending),
{
}

/// Once an expired submission is swept, a new one is retained.
pub proof fn lemma_slot_reusable_after_expiry(abandoned: PendingRestore, replacement: PendingRestore, now: u64)
    requires
        abandoned.expires_at <= now,
    ensures
        issue_outcome(expire_outcome(Some(abandoned), abandoned.digest@, now), replacement, now) == (Some(replacement), Ok::<(), RestoreError>(())),
{
}

/// The steps of the blocking Restore chain, in the order they run.
#[derive(Clone, Copy, Debug, PartialEq, Eq, Structural)]
pub enum RestoreStage {
    /// Authorize the workflow under the exclusive lifecycle permit.
    Authorize,
    /// Validate the artifact against the recovery key; both are cleared after.
    Validate,
    /// Mint the completion record's identifier and prepare the record.
    PrepareRecord,
    /// Build the replacement application state.
    BuildState,
    /// Resolve the Log Module the restored backup assigns the System Log to.
    ResolveLogModule,
    /// Observe the request deadline while abandoning is still free.
    CheckBudget,
    /// Enter the lifecycle transition gate.
    EnterGate,
    /// Past the point of no return: checkpoint, deliver the acknowledgement,
    /// and seal.
    ReplaceState,
    /// Compose and publish the operational surface, then leave the barrier.
    Activate,
}

/// How one step of the chain ended.
#[derive(Clone, Copy, Debug, PartialEq, Eq, Structural)]
pub enum RestoreStageResult {
    Done,
    /// The step failed with a stable Restore failure.
    Failed(RestoreError),
    /// A lifecycle workflow operation failed.
    WorkflowFailed(WorkflowError),
}

/// What the chain does next.
#[derive(Clone, Copy, Debug)]
pub enum RestoreStep {
    /// Run the next step; `publish_fail_closed` first switches every later
    /// connection to the fail-closed surface.
    Continue { next: RestoreStage, publish_fail_closed: bool },
    /// End the chain; `leave_gate` releases the barrier it entered.
    Finish { result: Result<(), RestoreError>, leave_gate: bool },
}

/// The stable failure a failed step reports.
pub open spec fn stage_error(stage: RestoreStage, result: RestoreStageResult) -> RestoreError {
    match result {
        RestoreStageResult::WorkflowFailed(w) => match stage {
            RestoreStage::Authorize => workflow_restore_error(w),
            RestoreStage::ReplaceState => workflow_restore_error(w),
            _ => RestoreError::RestoreFailed,
        },
        RestoreStageResult::Failed(e) => match stage {
            RestoreStage::Validate => e,
            RestoreStage::BuildState => e,
            RestoreStage::ResolveLogModule => RestoreError::BackupIncompatible,
            _ => RestoreError::RestoreFailed,
        },
        RestoreStageResult::Done => RestoreError::RestoreFailed,
    }
}

pub open spec fn restore_step_for(stage: RestoreStage, result: RestoreStageResult) -> RestoreStep {
    let inside = stage == RestoreStage::ReplaceState || stage == RestoreStage::Activate;
    if result != RestoreStageResult::Done {
        RestoreStep::Finish { result: Err(stage_error(stage, result)), leave_gate: inside }
    } else {
        match stage {
            RestoreStage::Authorize => RestoreStep::Continue { next: RestoreStage::Validate, publish_fail_closed: false },
            RestoreStage::Validate => RestoreStep::Continue { next: RestoreStage::PrepareRecord, publish_fail_closed: false },
            RestoreStage::PrepareRecord => RestoreStep::Continue { next: RestoreStage::BuildState, publish_fail_closed: false },
            RestoreStage::BuildState => RestoreStep::Continue { next: RestoreStage::ResolveLogModule, publish_fail_closed: false },
            RestoreStage::ResolveLogModule => RestoreStep::Continue { next: RestoreStage::CheckBudget, publish_fail_closed: false },
            RestoreStage::CheckBudget => RestoreStep::Continue { next: RestoreStage::EnterGate, publish_fail_closed: false },
            RestoreStage::EnterGate => RestoreStep::Continue { next: RestoreStage::ReplaceState, publish_fail_closed: true },
            RestoreStage::ReplaceState => RestoreStep::Continue { next: RestoreStage::Activate, publish_fail_closed: false },
            RestoreStage::Activate => RestoreStep::Finish { result: Ok(()), leave_gate: true },
        }
    }
}

/// Decides the step after one step of the blocking Restore chain.
///
/// A refusal by the barrier is reported as the same `RestoreFailed` every other
/// step abandoned before the point of no return reports. A failure past it
/// ends the chain fail-closed: the fail-closed surface stays published and
/// no rollback is attempted.
pub fn restore_step(stage: RestoreStage, result: RestoreStageResult) -> (step: RestoreStep)
    ensures
        step == restore_step_for(stage, result),
{
    let inside = match stage {
        RestoreStage::ReplaceState => true,
        RestoreStage::Activate => true,
        _ => false,
    };
    match result {
        RestoreStageResult::Done => match stage {
            RestoreStage::Authorize => RestoreStep::Continue { next: RestoreStage::Validate, publish_fail_closed: false },
            RestoreStage::Validate => RestoreStep::Continue { next: RestoreStage::PrepareRecord, publish_fail_closed: false },
            RestoreStage::PrepareRecord => RestoreStep::Continue { next: RestoreStage::BuildState, publish_fail_closed: false },
            RestoreStage::BuildState => RestoreStep::Continue { next: RestoreStage::ResolveLogModule, publish_fail_closed: false },
            RestoreStage::ResolveLogModule => RestoreStep::Continue { next: RestoreStage::CheckBudget, publish_fail_closed: false },
            RestoreStage::CheckBudget => RestoreStep::Continue { next: RestoreStage::EnterGate, publish_fail_closed: false },
            RestoreStage::EnterGate => RestoreStep::Continue { next: RestoreStage::ReplaceState, publish_fail_closed: true },
            RestoreStage::ReplaceState => RestoreStep::Continue { next: RestoreStage::Activate, publish_fail_closed: false },
            RestoreStage::Activate => RestoreStep::Finish { result: Ok(()), leave_gate: true },
        },
        RestoreStageResult::WorkflowFailed(w) => {
            let error = match stage {
                RestoreStage::Authorize => map_workflow_error(w),
                RestoreStage::ReplaceState => map_workflow_error(w),
                _ => RestoreError::RestoreFailed,
            };
            RestoreStep::Finish { result: Err(error), leave_gate: inside }
        },
        RestoreStageResult::Failed(e) => {
            let error = match stage {
                RestoreStage::Validate => e,
                RestoreStage::BuildState => e,
                RestoreStage::ResolveLogModule => RestoreError::BackupIncompatible,
                _ => RestoreError::RestoreFailed,
            };
            RestoreStep::Finish { result: Err(error), leave_gate: inside }
        },
    }
}

/// A stage's place in the order of the chain, from zero.
pub open spec fn restore_stage_index(stage: RestoreStage) -> nat {
    match stage {
        RestoreStage::Authorize => 0,
        RestoreStage::Validate => 1,
        RestoreStage::PrepareRecord => 2,
        RestoreStage::BuildState => 3,
        RestoreStage::ResolveLogModule => 4,
        RestoreStage::CheckBudget => 5,
        RestoreStage::EnterGate => 6,
        RestoreStage::ReplaceState => 7,
        RestoreStage::Activate => 8,
    }
}

/// Only a step that succeeded lets the chain go on, to the very next stage;
/// every other result ends the chain with an error, leaving the barrier
/// exactly when it was entered. A validation or build failure ends it with
/// its own error, and a failed Log Module resolution with an incompatible
/// backup.
pub proof fn lemma_only_success_continues(stage: RestoreStage, result: RestoreStageResult)
    ensures
        result != RestoreStageResult::Done ==> (restore_step_for(stage, result) matches RestoreStep::Finish {
            result: Err(error),
            leave_gate,
        } && leave_gate == (stage == RestoreStage::ReplaceState || stage == RestoreStage::Activate)
            && ((stage == RestoreStage::Validate || stage == RestoreStage::BuildState) ==> match result {
                RestoreStageResult::Failed(f) => error == f,
                _ => true,
            })
            && (result is Failed && stage == RestoreStage::ResolveLogModule ==> error == RestoreError::BackupIncompatible)),
        result == RestoreStageResult::Done ==> match restore_step_for(stage, result) {
            RestoreStep::Continue { next, .. } => restore_stage_index(next) == restore_stage_index(stage) + 1,
            RestoreStep::Finish { result: outcome, leave_gate } => stage == RestoreStage::Activate
                && outcome == Ok::<(), RestoreError>(()) && leave_gate,
        },
{
}

/// The fail-closed surface is published exactly when the chain passes the
/// gate, before any durable state is replaced, and only a completed
/// replacement is activated.
pub proof fn lemma_fail_closed_precedes_replacement(stage: RestoreStage, result: RestoreStageResult)
    ensures
        match restore_step_for(stage, result) {
            RestoreStep::Continue { next, publish_fail_closed } => {
                &&& publish_fail_closed <==> next == RestoreStage::ReplaceState
                &&& next == RestoreStage::Activate ==> (stage == RestoreStage::ReplaceState && result == RestoreStageResult::Done)
            },
            RestoreStep::Finish { result: outcome, .. } => outcome is Ok ==> stage == RestoreStage::Activate,
        },
{
}

/// The Log Module configuration the restored backup assigns the System Log
/// to; a backup that assigns none this Server can serve is incompatible.
pub fn system_log_configuration<'a>(
    configurations: &'a [LogModuleConfiguration],
    assignments: &[LogAssignment],
) -> (found: Result<&'a LogModuleConfiguration, RestoreError>)
    ensures
        match found {
            Ok(c) => exists|i: int, j: int|
                is_first_assignment(assignments@, LogType::System, i)
                && is_first_served(configurations@, assignments@[i].configuration, j)
                && *c == configurations@[j],
            Err(e) => e == RestoreError::BackupIncompatible
                && forall|i: int| is_first_assignment(assignments@, LogType::System, i)
                    ==> !has_served(configurations@, assignments@[i].configuration),
        },
{
    match assigned_configuration(configurations, assignments, LogType::System) {
        Some(configuration) => Ok(configuration),
        None => Err(RestoreError::BackupIncompatible),
    }
}

/// Lifecycle eligibility, re-checked under the acquired mutation lane: a
/// Restore is admitted only while the deployment record is uninitialized and
/// an Application Database is selected. `database_selected` is `None` when
/// the projection could not be read.
pub fn restore_eligibility(record_uninitialized: bool, database_selected: Option<bool>) -> (r: Result<(), PreBodyRejection>)
    ensures
        r == if record_uninitialized && database_selected == Some(true) {
            Ok::<(), PreBodyRejection>(())
        } else {
            Err(PreBodyRejection::RestoreNotAllowed)
        },
{
    let selected = match database_selected {
        Some(selected) => selected,
        None => false,
    };
    if record_uninitialized && selected {
        Ok(())
    } else {
        Err(PreBodyRejection::RestoreNotAllowed)
    }
}

/// Takes the claimed submission an admitted upload carries. Without one the
/// ticket is invalid; without the admission the lane granted, the Restore
/// fails. The claim is taken in either case, so it cannot be taken again.
pub fn claimed_upload(claimed: &mut ClaimedRestore, admitted: bool) -> (r: Result<PendingRestore, RestoreRejection>)
    ensures
        final(claimed)@ is None,
        r == match old(claimed)@ {
            None => Err(RestoreRejection::RestoreTicketInvalid),
            Some(p) => if admitted { Ok(p) } else { Err(RestoreRejection::RestoreFailed) },
        },
{
    match claimed.take() {
        None => Err(RestoreRejection::RestoreTicketInvalid),
        Some(pending) => {
            if admitted {
                Ok(pending)
            } else {
                Err(RestoreRejection::RestoreFailed)
            }
        },
    }
}

/// The completion record's event time in Unix milliseconds: `elapsed` is the
/// time since the epoch, `None` when the clock reads before it. A reading
/// that does not fit the record's signed milliseconds fails the Restore.
pub fn event_time_milliseconds(elapsed: Option<u128>) -> (time: Result<i64, RestoreError>)
    ensures
        match elapsed {
            Some(ms) => if ms <= i64::MAX {
                time == Ok::<i64, RestoreError>(ms as i64)
            } else {
                time == Err::<i64, RestoreError>(RestoreError::RestoreFailed)
            },
            None => time == Err::<i64, RestoreError>(RestoreError::RestoreFailed),
        },
{
    match elapsed {
        Some(ms) => {
            if ms <= 0x7fff_ffff_ffff_ffffu128 {
                Ok(ms as i64)
            } else {
                Err(RestoreError::RestoreFailed)
            }
        },
        None => Err(RestoreError::RestoreFailed),
    }
}

} // verus!
