use vstd::prelude::*;
use vstd::string::{StringSliceAdditionalSpecFns, StrSliceExecFns};

verus! {

/// Stable failure category returned by restricted startup.
#[derive(Clone, Copy, Debug, PartialEq, Eq, Structural)]
pub enum StartupError {
    /// The HTTPS listener address host configuration is not set.
    ListenerNotConfigured,
    /// The HTTPS listener address is malformed or has port zero.
    ListenerAddressInvalid,
    /// The TLS certificate path host configuration is not set.
    TlsCertificateNotConfigured,
    /// The TLS private-key path host configuration is not set.
    TlsPrivateKeyNotConfigured,
    /// TLS material is unsafe, unreadable, malformed, or incompatible.
    TlsMaterialInvalid,
    /// The configured HTTPS listener cannot be composed or bound.
    HttpsListenerUnavailable,
    /// The state root environment variable is not set.
    StateRootNotConfigured,
    /// The configured state root path is invalid.
    StateRootPathInvalid,
    /// The state root is currently in use by another Server instance.
    StateRootInUse,
    /// Lifecycle persistence could not complete.
    StorageOperationFailed,
    /// The Application Database is unavailable.
    DatabaseUnavailable,
    /// Anchor set is missing, malformed, or cannot be trusted.
    AnchorSetInvalid,
    /// Anchor format version is not supported.
    AnchorVersionUnsupported,
    /// Anchor binding does not match this deployment.
    AnchorBindingInvalid,
    /// Database integrity or schema cannot be trusted.
    DatabaseIntegrityFailure,
    /// Startup state combination is invalid or unsupported.
    StateCombinationInvalid,
    /// A retained new deployment requires operator redeployment.
    LifecycleInterruptedRedeployNew,
    /// A retained Restore requires operator redeployment.
    LifecycleInterruptedRedeployRestore,
    /// A retained state requires operator redeployment before a workflow decision.
    LifecycleInterruptedRedeployRequired,
    /// A signalled shutdown exceeded its budget or could not close cleanly.
    ShutdownIncomplete,
}

/// The stable category of each startup error.
pub open spec fn error_category(error: StartupError) -> Seq<char> {
    match error {
        StartupError::ListenerNotConfigured
        | StartupError::ListenerAddressInvalid
        | StartupError::TlsCertificateNotConfigured
        | StartupError::TlsPrivateKeyNotConfigured
        | StartupError::TlsMaterialInvalid
        | StartupError::StateRootNotConfigured
        | StartupError::StateRootPathInvalid => "configuration_invalid"@,
        StartupError::HttpsListenerUnavailable
        | StartupError::StateRootInUse => "preoperational_unavailable"@,
        StartupError::StorageOperationFailed
        | StartupError::DatabaseUnavailable => "storage_unavailable"@,
        StartupError::AnchorSetInvalid
        | StartupError::AnchorVersionUnsupported
        | StartupError::AnchorBindingInvalid
        | StartupError::DatabaseIntegrityFailure => "storage_integrity_failure"@,
        StartupError::StateCombinationInvalid => "deployment_state_invalid"@,
        StartupError::LifecycleInterruptedRedeployNew
        | StartupError::LifecycleInterruptedRedeployRestore
        | StartupError::LifecycleInterruptedRedeployRequired => "lifecycle_interrupted"@,
        StartupError::ShutdownIncomplete => "shutdown_incomplete"@,
    }
}

/// The stable reason of each startup error.
pub open spec fn error_reason(error: StartupError) -> Seq<char> {
    match error {
        StartupError::ListenerNotConfigured => "listener_not_configured"@,
        StartupError::ListenerAddressInvalid => "listener_address_invalid"@,
        StartupError::TlsCertificateNotConfigured => "tls_certificate_not_configured"@,
        StartupError::TlsPrivateKeyNotConfigured => "tls_private_key_not_configured"@,
        StartupError::TlsMaterialInvalid => "tls_material_invalid"@,
        StartupError::HttpsListenerUnavailable => "https_listener_unavailable"@,
        StartupError::StateRootNotConfigured => "state_root_not_configured"@,
        StartupError::StateRootPathInvalid => "state_root_path_invalid"@,
        StartupError::StateRootInUse => "state_root_in_use"@,
        StartupError::StorageOperationFailed => "storage_operation_failed"@,
        StartupError::DatabaseUnavailable => "database_unavailable"@,
        StartupError::AnchorSetInvalid => "anchor_set_invalid"@,
        StartupError::AnchorVersionUnsupported => "anchor_version_unsupported"@,
        StartupError::AnchorBindingInvalid => "anchor_binding_invalid"@,
        StartupError::DatabaseIntegrityFailure => "database_integrity_failure"@,
        StartupError::StateCombinationInvalid => "state_combination_invalid"@,
        StartupError::LifecycleInterruptedRedeployNew => "operator_redeploy_new"@,
        StartupError::LifecycleInterruptedRedeployRestore => "operator_redeploy_restore"@,
        StartupError::LifecycleInterruptedRedeployRequired => "operator_redeploy_required"@,
        StartupError::ShutdownIncomplete => "shutdown_incomplete"@,
    }
}

impl StartupError {
    /// Returns the stable category/reason pair for centralized error presentation.
    pub fn category_reason(&self) -> (pair: (&'static str, &'static str))
        ensures
            pair.0@ == error_category(*self),
            pair.1@ == error_reason(*self),
    {
        match self {
            Self::ListenerNotConfigured => ("configuration_invalid", "listener_not_configured"),
            Self::ListenerAddressInvalid => ("configuration_invalid", "listener_address_invalid"),
            Self::TlsCertificateNotConfigured => {
                ("configuration_invalid", "tls_certificate_not_configured")
            },
            Self::TlsPrivateKeyNotConfigured => {
                ("configuration_invalid", "tls_private_key_not_configured")
            },
            Self::TlsMaterialInvalid => ("configuration_invalid", "tls_material_invalid"),
            Self::HttpsListenerUnavailable => {
                ("preoperational_unavailable", "https_listener_unavailable")
            },
            Self::StateRootNotConfigured => ("configuration_invalid", "state_root_not_configured"),
            Self::StateRootPathInvalid => ("configuration_invalid", "state_root_path_invalid"),
            Self::StateRootInUse => ("preoperational_unavailable", "state_root_in_use"),
            Self::StorageOperationFailed => ("storage_unavailable", "storage_operation_failed"),
            Self::DatabaseUnavailable => ("storage_unavailable", "database_unavailable"),
            Self::AnchorSetInvalid => ("storage_integrity_failure", "anchor_set_invalid"),
            Self::AnchorVersionUnsupported => {
                ("storage_integrity_failure", "anchor_version_unsupported")
            },
            Self::AnchorBindingInvalid => ("storage_integrity_failure", "anchor_binding_invalid"),
            Self::DatabaseIntegrityFailure => {
                ("storage_integrity_failure", "database_integrity_failure")
            },
            Self::StateCombinationInvalid => {
                ("deployment_state_invalid", "state_combination_invalid")
            },
            Self::LifecycleInterruptedRedeployNew => {
                ("lifecycle_interrupted", "operator_redeploy_new")
            },
            Self::LifecycleInterruptedRedeployRestore => {
                ("lifecycle_interrupted", "operator_redeploy_restore")
            },
            Self::LifecycleInterruptedRedeployRequired => {
                ("lifecycle_interrupted", "operator_redeploy_required")
            },
            Self::ShutdownIncomplete => ("shutdown_incomplete", "shutdown_incomplete"),
        }
    }
}

} // verus!

verus! {

/// The lifecycle store's failure categories.
#[derive(Clone, Copy, Debug, PartialEq, Eq, Structural)]
pub enum LifecycleError {
    ConfigurationInvalid,
    LockContended,
    Persistence,
    IntegrityFailure,
    UnsupportedVersion,
    DeploymentMismatch,
    InvalidState,
    DependencyUnavailable,
    /// Any category this Server does not distinguish.
    Other,
}

/// A lifecycle workflow's failure.
#[derive(Clone, Copy, Debug, PartialEq, Eq, Structural)]
pub enum WorkflowError {
    Lifecycle(LifecycleError),
    AlreadyPending,
    /// Any other workflow failure.
    Other,
}

/// The lifecycle workflows that can hold a checkpoint.
#[derive(Clone, Copy, Debug, PartialEq, Eq, Structural)]
pub enum WorkflowKind {
    Init,
    Restore,
}

/// What an interrupted lifecycle requires of the operator.
#[derive(Clone, Copy, Debug, PartialEq, Eq, Structural)]
pub enum InterruptedLifecycleAction {
    RedeployNew,
    RedeployRestore,
    RedeployRequired,
}

/// The lifecycle store's startup classification.
#[derive(Clone, Copy, Debug, PartialEq, Eq, Structural)]
pub enum LifecycleClassification {
    UninitializedWithoutDatabase,
    UninitializedWithDatabase,
    InitializationPending(WorkflowKind),
    Initialized,
    Interrupted(InterruptedLifecycleAction),
    PostCommitReconciliationRequired,
}

/// Successful restricted startup classification result.
#[derive(Clone, Copy, Debug, PartialEq, Eq, Structural)]
pub enum StartupOutcome {
    /// No database has been selected; the Server is restricted and pre-operational.
    UninitializedWithoutDatabase,
    /// A database has been selected; the Server is restricted and pre-operational.
    UninitializedWithDatabase,
    /// An Init checkpoint is pending; the Server exposes only Init reconciliation.
    InitializationPending(WorkflowKind),
    /// The deployment is sealed; the Server serves its operational surface.
    Initialized,
}

pub open spec fn open_error_for(error: LifecycleError) -> StartupError {
    match error {
        LifecycleError::ConfigurationInvalid => StartupError::StateRootPathInvalid,
        LifecycleError::LockContended => StartupError::StateRootInUse,
        LifecycleError::Persistence => StartupError::StorageOperationFailed,
        LifecycleError::IntegrityFailure => StartupError::AnchorSetInvalid,
        LifecycleError::UnsupportedVersion => StartupError::AnchorVersionUnsupported,
        LifecycleError::DeploymentMismatch => StartupError::AnchorBindingInvalid,
        LifecycleError::InvalidState => StartupError::AnchorSetInvalid,
        _ => StartupError::StorageOperationFailed,
    }
}

/// Maps a lifecycle open/creation error to a startup error category.
pub fn map_open_error(error: LifecycleError) -> (mapped: StartupError)
    ensures
        mapped == open_error_for(error),
{
    match error {
        LifecycleError::ConfigurationInvalid => StartupError::StateRootPathInvalid,
        LifecycleError::LockContended => StartupError::StateRootInUse,
        LifecycleError::Persistence => StartupError::StorageOperationFailed,
        LifecycleError::IntegrityFailure => StartupError::AnchorSetInvalid,
        LifecycleError::UnsupportedVersion => StartupError::AnchorVersionUnsupported,
        LifecycleError::DeploymentMismatch => StartupError::AnchorBindingInvalid,
        LifecycleError::InvalidState => StartupError::AnchorSetInvalid,
        _ => StartupError::StorageOperationFailed,
    }
}

pub open spec fn classification_error_for(error: LifecycleError) -> StartupError {
    match error {
        LifecycleError::DependencyUnavailable => StartupError::DatabaseUnavailable,
        LifecycleError::IntegrityFailure => StartupError::DatabaseIntegrityFailure,
        LifecycleError::DeploymentMismatch => StartupError::AnchorBindingInvalid,
        LifecycleError::ConfigurationInvalid => StartupError::StateRootPathInvalid,
        LifecycleError::InvalidState => StartupError::StateCombinationInvalid,
        LifecycleError::UnsupportedVersion => StartupError::AnchorVersionUnsupported,
        LifecycleError::Persistence => StartupError::StorageOperationFailed,
        _ => StartupError::StorageOperationFailed,
    }
}

/// Maps a lifecycle classification error to a startup error category.
pub fn map_classification_error(error: LifecycleError) -> (mapped: StartupError)
    ensures
        mapped == classification_error_for(error),
{
    match error {
        LifecycleError::DependencyUnavailable => StartupError::DatabaseUnavailable,
        LifecycleError::IntegrityFailure => StartupError::DatabaseIntegrityFailure,
        LifecycleError::DeploymentMismatch => StartupError::AnchorBindingInvalid,
        LifecycleError::ConfigurationInvalid => StartupError::StateRootPathInvalid,
        LifecycleError::InvalidState => StartupError::StateCombinationInvalid,
        LifecycleError::UnsupportedVersion => StartupError::AnchorVersionUnsupported,
        LifecycleError::Persistence => StartupError::StorageOperationFailed,
        _ => StartupError::StorageOperationFailed,
    }
}

/// Maps a sealed-deployment load failure to a startup error category.
pub fn map_workflow_error(error: WorkflowError) -> (mapped: StartupError)
    ensures
        mapped == match error {
            WorkflowError::Lifecycle(e) => classification_error_for(e),
            _ => StartupError::StateCombinationInvalid,
        },
{
    match error {
        WorkflowError::Lifecycle(error) => map_classification_error(error),
        _ => StartupError::StateCombinationInvalid,
    }
}

pub open spec fn outcome_for(classification: LifecycleClassification) -> Result<StartupOutcome, StartupError> {
    match classification {
        LifecycleClassification::UninitializedWithoutDatabase => Ok(StartupOutcome::UninitializedWithoutDatabase),
        LifecycleClassification::UninitializedWithDatabase => Ok(StartupOutcome::UninitializedWithDatabase),
        LifecycleClassification::InitializationPending(kind) => Ok(StartupOutcome::InitializationPending(kind)),
        LifecycleClassification::Initialized => Ok(StartupOutcome::Initialized),
        LifecycleClassification::Interrupted(action) => Err(match action {
            InterruptedLifecycleAction::RedeployNew => StartupError::LifecycleInterruptedRedeployNew,
            InterruptedLifecycleAction::RedeployRestore => StartupError::LifecycleInterruptedRedeployRestore,
            InterruptedLifecycleAction::RedeployRequired => StartupError::LifecycleInterruptedRedeployRequired,
        }),
        LifecycleClassification::PostCommitReconciliationRequired => Err(StartupError::StateCombinationInvalid),
    }
}

/// Maps a lifecycle classification to the surface the runtime may serve;
/// post-commit reconciliation is not implemented, so it fails closed.
pub fn startup_outcome(classification: LifecycleClassification) -> (r: Result<StartupOutcome, StartupError>)
    ensures
        r == outcome_for(classification),
{
    match classification {
        LifecycleClassification::UninitializedWithoutDatabase => Ok(StartupOutcome::UninitializedWithoutDatabase),
        LifecycleClassification::UninitializedWithDatabase => Ok(StartupOutcome::UninitializedWithDatabase),
        LifecycleClassification::InitializationPending(kind) => Ok(StartupOutcome::InitializationPending(kind)),
        LifecycleClassification::Initialized => Ok(StartupOutcome::Initialized),
        LifecycleClassification::Interrupted(action) => Err(match action {
            InterruptedLifecycleAction::RedeployNew => StartupError::LifecycleInterruptedRedeployNew,
            InterruptedLifecycleAction::RedeployRestore => StartupError::LifecycleInterruptedRedeployRestore,
            InterruptedLifecycleAction::RedeployRequired => StartupError::LifecycleInterruptedRedeployRequired,
        }),
        LifecycleClassification::PostCommitReconciliationRequired => Err(StartupError::StateCombinationInvalid),
    }
}

/// The lifecycle state a successful startup outcome stands for.
pub open spec fn outcome_state(outcome: StartupOutcome) -> LifecycleClassification {
    match outcome {
        StartupOutcome::UninitializedWithoutDatabase => LifecycleClassification::UninitializedWithoutDatabase,
        StartupOutcome::UninitializedWithDatabase => LifecycleClassification::UninitializedWithDatabase,
        StartupOutcome::InitializationPending(kind) => LifecycleClassification::InitializationPending(kind),
        StartupOutcome::Initialized => LifecycleClassification::Initialized,
    }
}

/// Startup keeps the state it classified: every classification but an
/// interrupted lifecycle and a required post-commit reconciliation starts,
/// and the outcome stands for exactly that classification (a pending Init or
/// Restore keeps its kind, and only a selected, uninitialized database yields
/// the pre-operational surface with a database); each interrupted lifecycle
/// fails with its own error.
pub proof fn lemma_startup_keeps_the_classified_state(classification: LifecycleClassification, other: LifecycleClassification)
    ensures
        outcome_for(classification) is Ok <==> !(classification is Interrupted
            || classification is PostCommitReconciliationRequired),
        outcome_for(classification) matches Ok(outcome) ==> outcome_state(outcome) == classification,
        (classification is Interrupted && other is Interrupted && outcome_for(classification) == outcome_for(other))
            ==> classification == other,
{
}

/// The surface a classified startup publishes first.
#[derive(Clone, Copy, Debug, PartialEq, Eq, Structural)]
pub enum InitialPublication {
    /// The pre-operational surface; Init and Restore are mounted only when a database is selected.
    PreOperational { database_selected: bool },
    /// No functional route at all.
    FailClosed,
    /// The sealed deployment's operational surface.
    Operational,
}

/// Chooses the first surface: a pending Init cannot be resumed, and a sealed
/// classification without a loaded deployment serves nothing.
pub fn initial_publication(outcome: StartupOutcome, operational_composed: bool) -> (p: InitialPublication)
    ensures
        p == match outcome {
            StartupOutcome::UninitializedWithoutDatabase => InitialPublication::PreOperational { database_selected: false },
            StartupOutcome::UninitializedWithDatabase => InitialPublication::PreOperational { database_selected: true },
            StartupOutcome::InitializationPending(_) => InitialPublication::FailClosed,
            StartupOutcome::Initialized => if operational_composed { InitialPublication::Operational } else { InitialPublication::FailClosed },
        },
{
    match outcome {
        StartupOutcome::UninitializedWithoutDatabase => InitialPublication::PreOperational { database_selected: false },
        StartupOutcome::UninitializedWithDatabase => InitialPublication::PreOperational { database_selected: true },
        StartupOutcome::InitializationPending(_) => InitialPublication::FailClosed,
        StartupOutcome::Initialized => {
            if operational_composed {
                InitialPublication::Operational
            } else {
                InitialPublication::FailClosed
            }
        },
    }
}

/// The result of a shutdown: an accept failure wins; otherwise the stop is
/// clean only when the drain finished, no transition overran, and the
/// database closed.
pub open spec fn shutdown_outcome(accepting: Result<(), StartupError>, drained: bool, overrun: bool, closed: bool) -> Result<(), StartupError> {
    match accepting {
        Err(e) => Err(e),
        Ok(()) => if drained && !overrun && closed { Ok(()) } else { Err(StartupError::ShutdownIncomplete) },
    }
}

/// Computes the result of a shutdown from how accepting stopped and how the
/// drain, the quiescence wait and the database close ended.
pub fn shutdown_result(accepting: Result<(), StartupError>, drained: bool, overrun: bool, closed: bool) -> (r: Result<(), StartupError>)
    ensures
        r == shutdown_outcome(accepting, drained, overrun, closed),
{
    match accepting {
        Err(error) => Err(error),
        Ok(()) => {
            if drained && !overrun && closed {
                Ok(())
            } else {
                Err(StartupError::ShutdownIncomplete)
            }
        },
    }
}

/// The state root must be configured, nonempty, and absolute.
pub fn check_state_root(value: Option<&str>) -> (r: Result<(), StartupError>)
    ensures
        r == match value {
            None => Err(StartupError::StateRootNotConfigured),
            Some(v) => if v.spec_bytes().len() == 0 || v.spec_bytes()[0] != 47u8 {
                Err(StartupError::StateRootPathInvalid)
            } else {
                Ok(())
            },
        },
{
    match value {
        None => Err(StartupError::StateRootNotConfigured),
        Some(v) => {
            let bytes = v.as_bytes();
            if bytes.len() == 0 || bytes[0] != 47 {
                Err(StartupError::StateRootPathInvalid)
            } else {
                Ok(())
            }
        },
    }
}

/// A host setting that must be present and nonempty; `value` is what the
/// host supplied, `None` when it supplied nothing.
pub fn read_required_environment(value: Option<String>, missing_error: StartupError) -> (r: Result<String, StartupError>)
    ensures
        match value {
            Some(v) => if v@.len() == 0 {
                r == Err::<String, StartupError>(missing_error)
            } else {
                r == Ok::<String, StartupError>(v)
            },
            None => r == Err::<String, StartupError>(missing_error),
        },
{
    match value {
        Some(v) => {
            if v.as_str().unicode_len() == 0 {
                Err(missing_error)
            } else {
                Ok(v)
            }
        },
        None => Err(missing_error),
    }
}

/// A host-configured path that must be present and nonempty.
pub fn read_required_path(value: Option<String>, missing_error: StartupError) -> (r: Result<String, StartupError>)
    ensures
        match value {
            Some(v) => if v@.len() == 0 {
                r == Err::<String, StartupError>(missing_error)
            } else {
                r == Ok::<String, StartupError>(v)
            },
            None => r == Err::<String, StartupError>(missing_error),
        },
{
    read_required_environment(value, missing_error)
}

/// The steps of restricted startup classification, in the order they run.
#[derive(Clone, Copy, Debug, PartialEq, Eq, Structural)]
pub enum StartupStage {
    /// Open, or create, the anchor set under the state root.
    OpenStore,
    /// Classify the deployment record against the Application Database.
    Classify,
    /// Load a sealed deployment's state under the lifecycle mutation permit.
    LoadSealed,
}

/// How one startup step ended.
#[derive(Clone, Copy, Debug, PartialEq, Eq, Structural)]
pub enum StartupStageResult {
    Opened,
    OpenFailed(LifecycleError),
    Classified(LifecycleClassification),
    ClassifyFailed(LifecycleError),
    Loaded,
    LoadFailed(WorkflowError),
}

/// What startup does next.
#[derive(Clone, Copy, Debug)]
pub enum StartupStep {
    Next(StartupStage),
    Finish(Result<StartupOutcome, StartupError>),
}

/// Decides the step after one step of startup classification. A sealed
/// deployment is reported only once its state loaded; every failure fails
/// startup closed before any listener binds.
pub fn startup_step(result: StartupStageResult) -> (step: StartupStep)
    ensures
        match result {
            StartupStageResult::Opened => step matches StartupStep::Next(next) && next == StartupStage::Classify,
            StartupStageResult::OpenFailed(e) => step matches StartupStep::Finish(r) && r == Err::<StartupOutcome, StartupError>(open_error_for(e)),
            StartupStageResult::ClassifyFailed(e) => step matches StartupStep::Finish(r) && r == Err::<StartupOutcome, StartupError>(classification_error_for(e)),
            StartupStageResult::Classified(c) => match outcome_for(c) {
                Ok(StartupOutcome::Initialized) => step matches StartupStep::Next(next) && next == StartupStage::LoadSealed,
                other => step matches StartupStep::Finish(r) && r == other,
            },
            StartupStageResult::Loaded => step matches StartupStep::Finish(r) && r == Ok::<StartupOutcome, StartupError>(StartupOutcome::Initialized),
            StartupStageResult::LoadFailed(w) => step matches StartupStep::Finish(r) && r == Err::<StartupOutcome, StartupError>(match w {
                WorkflowError::Lifecycle(e) => classification_error_for(e),
                _ => StartupError::StateCombinationInvalid,
            }),
        },
{
    match result {
        StartupStageResult::Opened => StartupStep::Next(StartupStage::Classify),
        StartupStageResult::OpenFailed(e) => StartupStep::Finish(Err(map_open_error(e))),
        StartupStageResult::ClassifyFailed(e) => StartupStep::Finish(Err(map_classification_error(e))),
        StartupStageResult::Classified(c) => match startup_outcome(c) {
            Ok(StartupOutcome::Initialized) => StartupStep::Next(StartupStage::LoadSealed),
            other => StartupStep::Finish(other),
        },
        StartupStageResult::Loaded => StartupStep::Finish(Ok(StartupOutcome::Initialized)),
        StartupStageResult::LoadFailed(w) => StartupStep::Finish(Err(map_workflow_error(w))),
    }
}

/// The length of a reason and two of its characters.
pub open spec fn reason_signature(reason: Seq<char>) -> (nat, char, char) {
    (reason.len(), reason[0], reason[6])
}

/// The signature each startup error's reason has.
pub open spec fn error_signature(error: StartupError) -> (nat, char, char) {
    match error {
        StartupError::ListenerNotConfigured => (23nat, 'l', 'e'),
        StartupError::ListenerAddressInvalid => (24nat, 'l', 'e'),
        StartupError::TlsCertificateNotConfigured => (30nat, 't', 'r'),
        StartupError::TlsPrivateKeyNotConfigured => (30nat, 't', 'i'),
        StartupError::TlsMaterialInvalid => (20nat, 't', 't'),
        StartupError::HttpsListenerUnavailable => (26nat, 'h', 'l'),
        StartupError::StateRootNotConfigured => (25nat, 's', 'r'),
        StartupError::StateRootPathInvalid => (23nat, 's', 'r'),
        StartupError::StateRootInUse => (17nat, 's', 'r'),
        StartupError::StorageOperationFailed => (24nat, 's', 'e'),
        StartupError::DatabaseUnavailable => (20nat, 'd', 's'),
        StartupError::AnchorSetInvalid => (18nat, 'a', '_'),
        StartupError::AnchorVersionUnsupported => (26nat, 'a', '_'),
        StartupError::AnchorBindingInvalid => (22nat, 'a', '_'),
        StartupError::DatabaseIntegrityFailure => (26nat, 'd', 's'),
        StartupError::StateCombinationInvalid => (25nat, 's', 'c'),
        StartupError::LifecycleInterruptedRedeployNew => (21nat, 'o', 'o'),
        StartupError::LifecycleInterruptedRedeployRestore => (25nat, 'o', 'o'),
        StartupError::LifecycleInterruptedRedeployRequired => (26nat, 'o', 'o'),
        StartupError::ShutdownIncomplete => (19nat, 's', 'w'),
    }
}

proof fn lemma_reason_signature(error: StartupError)
    ensures
        reason_signature(error_reason(error)) == error_signature(error),
{
    match error {
        StartupError::ListenerNotConfigured => {
            reveal_strlit("listener_not_configured");
        },
        StartupError::ListenerAddressInvalid => {
            reveal_strlit("listener_address_invalid");
        },
        StartupError::TlsCertificateNotConfigured => {
            reveal_strlit("tls_certificate_not_configured");
        },
        StartupError::TlsPrivateKeyNotConfigured => {
            reveal_strlit("tls_private_key_not_configured");
        },
        StartupError::TlsMaterialInvalid => {
            reveal_strlit("tls_material_invalid");
        },
        StartupError::HttpsListenerUnavailable => {
            reveal_strlit("https_listener_unavailable");
        },
        StartupError::StateRootNotConfigured => {
            reveal_strlit("state_root_not_configured");
        },
        StartupError::StateRootPathInvalid => {
            reveal_strlit("state_root_path_invalid");
        },
        StartupError::StateRootInUse => {
            reveal_strlit("state_root_in_use");
        },
        StartupError::StorageOperationFailed => {
            reveal_strlit("storage_operation_failed");
        },
        StartupError::DatabaseUnavailable => {
            reveal_strlit("database_unavailable");
        },
        StartupError::AnchorSetInvalid => {
            reveal_strlit("anchor_set_invalid");
        },
        StartupError::AnchorVersionUnsupported => {
            reveal_strlit("anchor_version_unsupported");
        },
        StartupError::AnchorBindingInvalid => {
            reveal_strlit("anchor_binding_invalid");
        },
        StartupError::DatabaseIntegrityFailure => {
            reveal_strlit("database_integrity_failure");
        },
        StartupError::StateCombinationInvalid => {
            reveal_strlit("state_combination_invalid");
        },
        StartupError::LifecycleInterruptedRedeployNew => {
            reveal_strlit("operator_redeploy_new");
        },
        StartupError::LifecycleInterruptedRedeployRestore => {
            reveal_strlit("operator_redeploy_restore");
        },
        StartupError::LifecycleInterruptedRedeployRequired => {
            reveal_strlit("operator_redeploy_required");
        },
        StartupError::ShutdownIncomplete => {
            reveal_strlit("shutdown_incomplete");
        },
    }
}

/// The reason alone identifies the startup error: distinct errors have
/// distinct reasons.
pub proof fn lemma_reasons_identify_errors(first: StartupError, second: StartupError)
    ensures
        error_reason(first) == error_reason(second) ==> first == second,
{
    lemma_reason_signature(first);
    lemma_reason_signature(second);
}

} // verus!
