//! Audit terminal recovery: the decisions of one bounded drain of the two
//! independently ordered recovery sequences, and the barrier a consequential
//! workflow passes only while active obligations are fully recovered, and the
//! refusal and System Log report of a failed Audit delivery.
use vstd::prelude::*;
use vstd::utf8::encode_utf8;
use crate::response::append;

verus! {

/// Result of draining one independently ordered recovery sequence.
#[derive(Clone, Copy, Debug, PartialEq, Eq, Structural)]
pub enum AuditRecoverySequenceState {
    /// No obligation remains in the bounded sequence read.
    Ready,
    /// Exact delivery remains pending or another bounded batch may remain.
    Pending,
    /// Recovery cannot proceed without repairing trusted state or a dependency.
    RecoveryRequired,
}

/// Recovery state observed at activation or before a consequential workflow.
#[derive(Clone, Copy, Debug, PartialEq, Eq, Structural)]
pub struct OperationalAuditRecoveryState {
    active: AuditRecoverySequenceState,
    late_delivery: AuditRecoverySequenceState,
}

impl OperationalAuditRecoveryState {
    pub closed spec fn active_spec(self) -> AuditRecoverySequenceState {
        self.active
    }

    pub closed spec fn late_delivery_spec(self) -> AuditRecoverySequenceState {
        self.late_delivery
    }

    /// The state before any drain, and after one that could not resolve the
    /// deployment's Audit destination: both sequences require recovery.
    pub fn recovery_required() -> (state: Self)
        ensures
            state.active_spec() == AuditRecoverySequenceState::RecoveryRequired,
            state.late_delivery_spec() == AuditRecoverySequenceState::RecoveryRequired,
    {
        OperationalAuditRecoveryState {
            active: AuditRecoverySequenceState::RecoveryRequired,
            late_delivery: AuditRecoverySequenceState::RecoveryRequired,
        }
    }

    /// The state one drain leaves: the two sequences' results when the
    /// destination resolved, and recovery required for both when it did not.
    pub fn after_drain(resolved: Option<(AuditRecoverySequenceState, AuditRecoverySequenceState)>) -> (state: Self)
        ensures
            match resolved {
                Some((active, late_delivery)) => state.active_spec() == active && state.late_delivery_spec() == late_delivery,
                None => state.active_spec() == AuditRecoverySequenceState::RecoveryRequired
                    && state.late_delivery_spec() == AuditRecoverySequenceState::RecoveryRequired,
            },
    {
        match resolved {
            Some((active, late_delivery)) => OperationalAuditRecoveryState { active, late_delivery },
            None => Self::recovery_required(),
        }
    }

    /// Returns whether active obligations permit a consequential workflow to proceed.
    pub fn active(self) -> (state: AuditRecoverySequenceState)
        ensures
            state == self.active_spec(),
    {
        self.active
    }

    /// Returns the independently drained degraded-completeness sequence state.
    pub fn late_delivery(self) -> (state: AuditRecoverySequenceState)
        ensures
            state == self.late_delivery_spec(),
    {
        self.late_delivery
    }

    /// A consequential workflow proceeds only while every active obligation
    /// has been recovered; late deliveries never hold it back.
    pub fn permits_consequential_operation(self) -> (permitted: bool)
        ensures
            permitted == (self.active_spec() == AuditRecoverySequenceState::Ready),
    {
        self.active == AuditRecoverySequenceState::Ready
    }
}

/// What became of one listed obligation.
#[derive(Clone, Copy, Debug, PartialEq, Eq, Structural)]
pub enum ObligationOutcome {
    /// Restored, delivered exactly, and acknowledged in the store.
    Acknowledged,
    /// Its terminal record could not be restored from persistence.
    RestoreFailed,
    /// The destination has not confirmed exact delivery yet.
    DeliveryPending,
    /// The destination binding no longer matches the obligation.
    DestinationBindingChanged,
    /// The store refused the acknowledgement.
    AcknowledgeFailed,
}

/// `f` is the first obligation that did not complete.
pub open spec fn is_first_failure(outcomes: Seq<ObligationOutcome>, f: int) -> bool {
    &&& 0 <= f < outcomes.len()
    &&& outcomes[f] != ObligationOutcome::Acknowledged
    &&& forall|k: int| 0 <= k < f ==> outcomes[k] == ObligationOutcome::Acknowledged
}

pub open spec fn all_acknowledged(outcomes: Seq<ObligationOutcome>) -> bool {
    forall|k: int| 0 <= k < outcomes.len() ==> outcomes[k] == ObligationOutcome::Acknowledged
}

/// The sequence state a failed obligation leaves: only a pending delivery
/// can still complete on its own.
pub open spec fn failure_state(outcome: ObligationOutcome) -> AuditRecoverySequenceState {
    if outcome == ObligationOutcome::DeliveryPending {
        AuditRecoverySequenceState::Pending
    } else {
        AuditRecoverySequenceState::RecoveryRequired
    }
}

/// Whether the drain goes on to the next listed obligation.
pub fn obligation_completed(outcome: ObligationOutcome) -> (next: bool)
    ensures
        next == (outcome == ObligationOutcome::Acknowledged),
{
    outcome == ObligationOutcome::Acknowledged
}

/// The state of one sequence after a bounded drain, and whether the failure
/// is reported to the System Log.
///
/// `listed` is how many obligations the bounded read returned, `None` when
/// the read failed; `outcomes` are the outcomes of the obligations processed
/// in order. The first obligation that did not complete decides; when all
/// completed, a full batch means another may remain.
pub fn drain_sequence_state(listed: Option<usize>, batch_size: usize, outcomes: &[ObligationOutcome]) -> (r: (AuditRecoverySequenceState, bool))
    ensures
        listed is None ==> r == (AuditRecoverySequenceState::RecoveryRequired, true),
        listed matches Some(count) ==> {
            &&& forall|f: int| is_first_failure(outcomes@, f) ==> r == (failure_state(outcomes@[f]), true)
            &&& all_acknowledged(outcomes@) ==> r == (
                if count == batch_size { AuditRecoverySequenceState::Pending } else { AuditRecoverySequenceState::Ready },
                false,
            )
        },
{
    let count = match listed {
        Some(count) => count,
        None => return (AuditRecoverySequenceState::RecoveryRequired, true),
    };
    let mut k: usize = 0;
    while k < outcomes.len()
        invariant
            k <= outcomes@.len(),
            listed == Some(count),
            forall|m: int| 0 <= m < k ==> outcomes@[m] == ObligationOutcome::Acknowledged,
        decreases outcomes@.len() - k,
    {
        let outcome = outcomes[k];
        if !obligation_completed(outcome) {
            proof {
                assert(is_first_failure(outcomes@, k as int));
                assert forall|f: int| is_first_failure(outcomes@, f) implies f == k by {
                    if f < k {
                        assert(outcomes@[f] == ObligationOutcome::Acknowledged);
                    } else if f > k {
                        assert(outcomes@[k as int] == ObligationOutcome::Acknowledged);
                    }
                }
            }
            if outcome == ObligationOutcome::DeliveryPending {
                return (AuditRecoverySequenceState::Pending, true);
            }
            return (AuditRecoverySequenceState::RecoveryRequired, true);
        }
        k = k + 1;
    }
    proof {
        assert forall|f: int| is_first_failure(outcomes@, f) implies false by {
            assert(outcomes@[f] == ObligationOutcome::Acknowledged);
        }
    }
    if count == batch_size {
        (AuditRecoverySequenceState::Pending, false)
    } else {
        (AuditRecoverySequenceState::Ready, false)
    }
}

/// Stable error of a consequential operation refused for want of Audit delivery.
#[derive(Clone, Copy, Debug, PartialEq, Eq, Structural)]
pub enum ConsequentialOperationError {
    /// Required Audit Log delivery did not complete.
    AuditLogUnavailable,
}

pub open spec fn consequential_error_code(error: ConsequentialOperationError) -> Seq<char> {
    match error {
        ConsequentialOperationError::AuditLogUnavailable => "audit_log_unavailable"@,
    }
}

impl ConsequentialOperationError {
    /// Returns the stable error code Client Modules may map.
    pub fn code(self) -> (code: &'static str)
        ensures
            code@ == consequential_error_code(self),
    {
        match self {
            ConsequentialOperationError::AuditLogUnavailable => "audit_log_unavailable",
        }
    }

    /// The message the operation's refusal carries.
    pub fn message(self) -> (text: &'static str)
        ensures
            text@ == "Audit Log unavailable; operation rejected."@,
    {
        match self {
            ConsequentialOperationError::AuditLogUnavailable => "Audit Log unavailable; operation rejected.",
        }
    }
}

/// The two independently ordered recovery sequences.
#[derive(Clone, Copy, Debug, PartialEq, Eq, Structural)]
pub enum RecoverySequence {
    /// Obligations a consequential workflow waits for.
    Active,
    /// Degraded-completeness deliveries.
    LateDelivery,
}

/// The sequence a drain runs after `drained` (`None` at its start): active
/// obligations first, then late deliveries, each oldest first. The late
/// sequence is drained whatever the active one ended with, so a failure in
/// one never stops the other.
pub fn next_sequence(drained: Option<RecoverySequence>) -> (next: Option<RecoverySequence>)
    ensures
        next == match drained {
            None => Some(RecoverySequence::Active),
            Some(RecoverySequence::Active) => Some(RecoverySequence::LateDelivery),
            Some(RecoverySequence::LateDelivery) => None::<RecoverySequence>,
        },
{
    match drained {
        None => Some(RecoverySequence::Active),
        Some(RecoverySequence::Active) => Some(RecoverySequence::LateDelivery),
        Some(RecoverySequence::LateDelivery) => None,
    }
}

/// Why a Log Module refused an Audit record's delivery.
#[derive(Clone, Copy, Debug, PartialEq, Eq, Structural)]
pub enum LogDestinationError {
    ConfigurationInvalid,
    Unavailable,
    IntegrityFailure,
}

/// Why a required Audit delivery did not complete.
#[derive(Clone, Copy, Debug, PartialEq, Eq, Structural)]
pub enum LogDeliveryError {
    CapabilityUnavailable,
    IntegrityFailure,
    Destination(LogDestinationError),
}

/// The System Log record that reports a failed Audit delivery, its fields
/// as UTF-8 bytes.
pub struct AuditFailureRecord {
    pub classification: Vec<u8>,
    pub detail: Vec<u8>,
    pub correlation_identifier: Vec<u8>,
}

/// The report of an Audit delivery to `destination_module` that failed for
/// the operation classified `operation`: a dependency record that names the
/// module and the operation and carries the request's correlation, and no
/// other detail of the failure.
pub open spec fn audit_failure_record(destination_module: Seq<char>, operation: Seq<char>, correlation_identifier: Seq<char>) -> (Seq<u8>, Seq<u8>, Seq<u8>) {
    (
        encode_utf8("dependency.audit-log-unavailable"@),
        encode_utf8("audit destination module "@) + encode_utf8(destination_module) + encode_utf8(" unavailable for "@)
            + encode_utf8(operation),
        encode_utf8(correlation_identifier),
    )
}

/// The refusal of a consequential operation whose required Audit delivery
/// failed, and the System Log report of that failure.
///
/// The refusal is one payload-free error, whatever the failure was. The
/// report is returned for exactly one delivery, only when a System Log
/// destination is configured and the record could be prepared
/// (`record_prepared`: the record's identifier, event time and correlation
/// were accepted); otherwise nothing is reported. How that delivery ends
/// changes neither the refusal nor any later one, as nothing here depends on
/// it.
pub fn reject_consequential_audit_failure(
    delivery_error: LogDeliveryError,
    system_log_present: bool,
    record_prepared: bool,
    destination_module: &str,
    operation: &str,
    correlation_identifier: &str,
) -> (rejection: (ConsequentialOperationError, Option<AuditFailureRecord>))
    ensures
        rejection.0 == ConsequentialOperationError::AuditLogUnavailable,
        rejection.1 is Some <==> system_log_present && record_prepared,
        rejection.1 matches Some(record) ==> (record.classification@, record.detail@, record.correlation_identifier@)
            == audit_failure_record(destination_module@, operation@, correlation_identifier@),
{
    let error = match delivery_error {
        LogDeliveryError::CapabilityUnavailable => ConsequentialOperationError::AuditLogUnavailable,
        LogDeliveryError::IntegrityFailure => ConsequentialOperationError::AuditLogUnavailable,
        LogDeliveryError::Destination(_) => ConsequentialOperationError::AuditLogUnavailable,
    };
    if !(system_log_present && record_prepared) {
        return (error, None);
    }
    let mut classification: Vec<u8> = Vec::new();
    append(&mut classification, "dependency.audit-log-unavailable".as_bytes());
    let mut detail: Vec<u8> = Vec::new();
    append(&mut detail, "audit destination module ".as_bytes());
    append(&mut detail, destination_module.as_bytes());
    append(&mut detail, " unavailable for ".as_bytes());
    append(&mut detail, operation.as_bytes());
    let mut correlation: Vec<u8> = Vec::new();
    append(&mut correlation, correlation_identifier.as_bytes());
    proof {
        assert(classification@ =~= encode_utf8("dependency.audit-log-unavailable"@));
        assert(correlation@ =~= encode_utf8(correlation_identifier@));
    }
    (error, Some(AuditFailureRecord { classification, detail, correlation_identifier: correlation }))
}

} // verus!
