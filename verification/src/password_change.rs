//! Forced password replacement from a restricted session: the ordered stages
//! of one change, the refusal each stage's failure produces, and the audited
//! result the committed outcome yields.
use vstd::prelude::*;
use crate::audit_recovery::{AuditRecoverySequenceState, OperationalAuditRecoveryState};

verus! {

/// Why the authentication runtime refused to prepare a password change.
#[derive(Clone, Copy, Debug, PartialEq, Eq, Structural)]
pub enum PasswordChangePreparationError {
    Denied,
    Unavailable,
}

/// Payload-free refusal before a password-change result commits.
#[derive(Clone, Copy, Debug, PartialEq, Eq, Structural)]
pub enum PasswordChangeWorkflowError {
    Denied,
    Unavailable,
    AuditLogUnavailable,
}

pub open spec fn workflow_error_for(error: PasswordChangePreparationError) -> PasswordChangeWorkflowError {
    match error {
        PasswordChangePreparationError::Denied => PasswordChangeWorkflowError::Denied,
        PasswordChangePreparationError::Unavailable => PasswordChangeWorkflowError::Unavailable,
    }
}

/// Maps a preparation refusal onto the workflow's refusal of the same kind.
pub fn preparation_error(error: PasswordChangePreparationError) -> (mapped: PasswordChangeWorkflowError)
    ensures
        mapped == workflow_error_for(error),
{
    match error {
        PasswordChangePreparationError::Denied => PasswordChangeWorkflowError::Denied,
        PasswordChangePreparationError::Unavailable => PasswordChangeWorkflowError::Unavailable,
    }
}

pub open spec fn workflow_error_message(error: PasswordChangeWorkflowError) -> Seq<char> {
    match error {
        PasswordChangeWorkflowError::Denied => "password change denied"@,
        PasswordChangeWorkflowError::Unavailable => "password change unavailable"@,
        PasswordChangeWorkflowError::AuditLogUnavailable => "consequential operation Audit Log unavailable"@,
    }
}

impl PasswordChangeWorkflowError {
    /// The refusal's message.
    pub fn message(self) -> (text: &'static str)
        ensures
            text@ == workflow_error_message(self),
    {
        match self {
            PasswordChangeWorkflowError::Denied => "password change denied",
            PasswordChangeWorkflowError::Unavailable => "password change unavailable",
            PasswordChangeWorkflowError::AuditLogUnavailable => "consequential operation Audit Log unavailable",
        }
    }
}

/// The stages of one forced password change, in the order they run.
#[derive(Clone, Copy, Debug, PartialEq, Eq, Structural)]
pub enum PasswordChangeStage {
    /// Drain Audit recovery; only fully recovered active obligations proceed.
    DrainAudit,
    /// Admit the restricted session and the replacement input.
    AdmitSession,
    /// Load the account's Audit reference.
    LoadAccount,
    /// Preflight the current Audit destination.
    PreflightDestination,
    /// Validate the request's correlation identifier.
    PrepareCorrelation,
    /// Read the event time and prepare the attempt record.
    PrepareAttempt,
    /// Deliver the attempt record to the Audit destination.
    DeliverAttempt,
    /// Prepare both terminal records and their recovery obligations.
    PrepareTerminals,
    /// Prepare the credential mutation and the replacement session.
    PrepareMutation,
    /// Commit the outcome together with its terminal obligations.
    CommitChange,
}

/// How one stage ended.
#[derive(Clone, Copy, Debug, PartialEq, Eq, Structural)]
pub enum StageOutcome {
    Done,
    Failed,
    /// The authentication runtime refused to prepare the change.
    Refused(PasswordChangePreparationError),
}

/// What the workflow does next.
#[derive(Clone, Copy, Debug, PartialEq, Eq, Structural)]
pub enum PasswordChangeStep {
    Continue(PasswordChangeStage),
    /// The change committed: the workflow ends, and its result is composed
    /// from the committed outcome by `password_change_result`.
    Committed,
    /// Refuse the change; `reject_attempt` asks for the undelivered attempt to
    /// be reported first.
    Refuse { error: PasswordChangeWorkflowError, reject_attempt: bool },
}

/// The stage that follows a completed one; the commit is the last.
pub open spec fn stage_after(stage: PasswordChangeStage) -> Option<PasswordChangeStage> {
    match stage {
        PasswordChangeStage::DrainAudit => Some(PasswordChangeStage::AdmitSession),
        PasswordChangeStage::AdmitSession => Some(PasswordChangeStage::LoadAccount),
        PasswordChangeStage::LoadAccount => Some(PasswordChangeStage::PreflightDestination),
        PasswordChangeStage::PreflightDestination => Some(PasswordChangeStage::PrepareCorrelation),
        PasswordChangeStage::PrepareCorrelation => Some(PasswordChangeStage::PrepareAttempt),
        PasswordChangeStage::PrepareAttempt => Some(PasswordChangeStage::DeliverAttempt),
        PasswordChangeStage::DeliverAttempt => Some(PasswordChangeStage::PrepareTerminals),
        PasswordChangeStage::PrepareTerminals => Some(PasswordChangeStage::PrepareMutation),
        PasswordChangeStage::PrepareMutation => Some(PasswordChangeStage::CommitChange),
        PasswordChangeStage::CommitChange => None,
    }
}

/// A stage's place in the order of a change, from zero.
pub open spec fn stage_index(stage: PasswordChangeStage) -> nat {
    match stage {
        PasswordChangeStage::DrainAudit => 0,
        PasswordChangeStage::AdmitSession => 1,
        PasswordChangeStage::LoadAccount => 2,
        PasswordChangeStage::PreflightDestination => 3,
        PasswordChangeStage::PrepareCorrelation => 4,
        PasswordChangeStage::PrepareAttempt => 5,
        PasswordChangeStage::DeliverAttempt => 6,
        PasswordChangeStage::PrepareTerminals => 7,
        PasswordChangeStage::PrepareMutation => 8,
        PasswordChangeStage::CommitChange => 9,
    }
}

/// The refusal a failed stage produces: an unusable session or account, or
/// a malformed correlation identifier, is unavailability; every failure to
/// secure Audit delivery is the Audit Log's.
pub open spec fn stage_failure(stage: PasswordChangeStage) -> PasswordChangeWorkflowError {
    match stage {
        PasswordChangeStage::LoadAccount => PasswordChangeWorkflowError::Unavailable,
        PasswordChangeStage::PrepareCorrelation => PasswordChangeWorkflowError::Unavailable,
        PasswordChangeStage::AdmitSession => PasswordChangeWorkflowError::Unavailable,
        PasswordChangeStage::PrepareMutation => PasswordChangeWorkflowError::Unavailable,
        _ => PasswordChangeWorkflowError::AuditLogUnavailable,
    }
}

pub open spec fn step_for(stage: PasswordChangeStage, outcome: StageOutcome) -> PasswordChangeStep {
    match outcome {
        StageOutcome::Done => match stage_after(stage) {
            Some(next) => PasswordChangeStep::Continue(next),
            None => PasswordChangeStep::Committed,
        },
        StageOutcome::Refused(error) => PasswordChangeStep::Refuse {
            error: workflow_error_for(error),
            reject_attempt: false,
        },
        StageOutcome::Failed => PasswordChangeStep::Refuse {
            error: stage_failure(stage),
            reject_attempt: stage == PasswordChangeStage::DeliverAttempt,
        },
    }
}

/// Decides the step after one stage of a forced password change.
pub fn password_change_step(stage: PasswordChangeStage, outcome: StageOutcome) -> (step: PasswordChangeStep)
    ensures
        step == step_for(stage, outcome),
{
    match outcome {
        StageOutcome::Refused(error) => PasswordChangeStep::Refuse {
            error: preparation_error(error),
            reject_attempt: false,
        },
        StageOutcome::Failed => {
            let error = match stage {
                PasswordChangeStage::LoadAccount => PasswordChangeWorkflowError::Unavailable,
                PasswordChangeStage::PrepareCorrelation => PasswordChangeWorkflowError::Unavailable,
                PasswordChangeStage::AdmitSession => PasswordChangeWorkflowError::Unavailable,
                PasswordChangeStage::PrepareMutation => PasswordChangeWorkflowError::Unavailable,
                _ => PasswordChangeWorkflowError::AuditLogUnavailable,
            };
            PasswordChangeStep::Refuse {
                error,
                reject_attempt: stage == PasswordChangeStage::DeliverAttempt,
            }
        },
        StageOutcome::Done => match stage {
            PasswordChangeStage::DrainAudit => PasswordChangeStep::Continue(PasswordChangeStage::AdmitSession),
            PasswordChangeStage::AdmitSession => PasswordChangeStep::Continue(PasswordChangeStage::LoadAccount),
            PasswordChangeStage::LoadAccount => PasswordChangeStep::Continue(PasswordChangeStage::PreflightDestination),
            PasswordChangeStage::PreflightDestination => PasswordChangeStep::Continue(PasswordChangeStage::PrepareCorrelation),
            PasswordChangeStage::PrepareCorrelation => PasswordChangeStep::Continue(PasswordChangeStage::PrepareAttempt),
            PasswordChangeStage::PrepareAttempt => PasswordChangeStep::Continue(PasswordChangeStage::DeliverAttempt),
            PasswordChangeStage::DeliverAttempt => PasswordChangeStep::Continue(PasswordChangeStage::PrepareTerminals),
            PasswordChangeStage::PrepareTerminals => PasswordChangeStep::Continue(PasswordChangeStage::PrepareMutation),
            PasswordChangeStage::PrepareMutation => PasswordChangeStep::Continue(PasswordChangeStage::CommitChange),
            PasswordChangeStage::CommitChange => PasswordChangeStep::Committed,
        },
    }
}

/// Every step of a change either moves to the very next stage or ends the
/// change, by a refusal or by the commit, so a change runs at most ten
/// stages and the commit is reached only through every stage in order.
pub proof fn lemma_each_step_advances_or_ends(stage: PasswordChangeStage, outcome: StageOutcome)
    ensures
        match step_for(stage, outcome) {
            PasswordChangeStep::Continue(next) => stage_index(next) == stage_index(stage) + 1 && stage_index(next) <= 9,
            PasswordChangeStep::Committed => stage == PasswordChangeStage::CommitChange && outcome == StageOutcome::Done,
            PasswordChangeStep::Refuse { .. } => outcome != StageOutcome::Done,
        },
{
}

/// The stages whose failure is a failure to secure Audit delivery.
pub open spec fn is_audit_stage(stage: PasswordChangeStage) -> bool {
    stage == PasswordChangeStage::DrainAudit || stage == PasswordChangeStage::PreflightDestination
        || stage == PasswordChangeStage::PrepareAttempt || stage == PasswordChangeStage::DeliverAttempt
        || stage == PasswordChangeStage::PrepareTerminals || stage == PasswordChangeStage::CommitChange
}

/// A stage that failed never lets the change go on: it is refused, with the
/// Audit Log's unavailability for a stage that secures Audit delivery and
/// with unavailability for the others; only an undelivered attempt asks for
/// the attempt to be reported. A refusal by the authentication runtime keeps
/// its kind.
pub proof fn lemma_failures_refuse_the_change(stage: PasswordChangeStage, outcome: StageOutcome)
    ensures
        outcome == StageOutcome::Failed ==> step_for(stage, outcome) == (PasswordChangeStep::Refuse {
            error: if is_audit_stage(stage) {
                PasswordChangeWorkflowError::AuditLogUnavailable
            } else {
                PasswordChangeWorkflowError::Unavailable
            },
            reject_attempt: stage == PasswordChangeStage::DeliverAttempt,
        }),
        outcome == StageOutcome::Refused(PasswordChangePreparationError::Denied) ==> step_for(stage, outcome)
            == (PasswordChangeStep::Refuse { error: PasswordChangeWorkflowError::Denied, reject_attempt: false }),
        outcome == StageOutcome::Refused(PasswordChangePreparationError::Unavailable) ==> step_for(stage, outcome)
            == (PasswordChangeStep::Refuse { error: PasswordChangeWorkflowError::Unavailable, reject_attempt: false }),
        outcome == StageOutcome::Done <==> !(step_for(stage, outcome) is Refuse),
{
}

/// The outcome of the drain before the change: the first stage is done
/// only while every active Audit obligation has been recovered.
pub fn drain_outcome(state: OperationalAuditRecoveryState) -> (outcome: StageOutcome)
    ensures
        outcome == if state.active_spec() == AuditRecoverySequenceState::Ready {
            StageOutcome::Done
        } else {
            StageOutcome::Failed
        },
{
    if state.permits_consequential_operation() {
        StageOutcome::Done
    } else {
        StageOutcome::Failed
    }
}

/// Reads an event time from the clock's Unix milliseconds; a clock that
/// failed or reads before the epoch leaves the Audit Log unavailable.
pub fn event_time(milliseconds: Option<i64>) -> (time: Result<u64, PasswordChangeWorkflowError>)
    ensures
        match milliseconds {
            Some(ms) if ms >= 0 => time == Ok::<u64, PasswordChangeWorkflowError>(ms as u64),
            _ => time == Err::<u64, PasswordChangeWorkflowError>(PasswordChangeWorkflowError::AuditLogUnavailable),
        },
{
    match milliseconds {
        Some(ms) => {
            if ms >= 0 {
                Ok(ms as u64)
            } else {
                Err(PasswordChangeWorkflowError::AuditLogUnavailable)
            }
        },
        None => Err(PasswordChangeWorkflowError::AuditLogUnavailable),
    }
}

/// Postcommit Audit terminal delivery state for a password change.
#[derive(Clone, Copy, Debug, PartialEq, Eq, Structural)]
pub enum PasswordChangeDelivery {
    Acknowledged,
    Pending,
}

/// The committed outcome of a change.
#[derive(Clone, Copy, Debug, PartialEq, Eq, Structural)]
pub enum PasswordChangeOutcome {
    Changed,
    Denied,
}

/// Complete result of one forced password change; `S` is the replacement session.
pub enum PasswordChangeResult<S> {
    Changed { session: S, delivery: PasswordChangeDelivery },
    Denied { delivery: PasswordChangeDelivery },
}

/// Composes the result from the committed outcome and the drain after it:
/// the terminal record is acknowledged only when that drain left no active
/// obligation, and a denied change drops the replacement session.
pub fn password_change_result<S>(outcome: PasswordChangeOutcome, session: S, after: OperationalAuditRecoveryState) -> (result: PasswordChangeResult<S>)
    ensures
        ({
            let delivery = if after.active_spec() == AuditRecoverySequenceState::Ready {
                PasswordChangeDelivery::Acknowledged
            } else {
                PasswordChangeDelivery::Pending
            };
            match outcome {
                PasswordChangeOutcome::Changed => result == (PasswordChangeResult::Changed { session, delivery }),
                PasswordChangeOutcome::Denied => result == (PasswordChangeResult::<S>::Denied { delivery }),
            }
        }),
{
    let delivery = if after.permits_consequential_operation() {
        PasswordChangeDelivery::Acknowledged
    } else {
        PasswordChangeDelivery::Pending
    };
    match outcome {
        PasswordChangeOutcome::Changed => PasswordChangeResult::Changed { session, delivery },
        PasswordChangeOutcome::Denied => PasswordChangeResult::Denied { delivery },
    }
}

} // verus!
