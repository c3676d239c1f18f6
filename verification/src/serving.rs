//! What the listener serves: the serving modes and their switch, the
//! operational mount, which lifecycle capabilities the pre-operational
//! surface offers, and the reconciliation route's decisions.
//!
//! `S` is a mounted surface: a router together with the transport
//! registrations that admit its routes.
use vstd::prelude::*;
use crate::credentials::{
    ReconciliationCapability, ReconciliationDigest, SecretText, domain_digest,
    reconciliation_domain, sealed_text,
};

verus! {

/// The operational surface of a sealed deployment, composed in one piece so
/// its routes never reach the listener without their registrations.
pub struct OperationalMount<S> {
    surface: S,
}

impl<S> View for OperationalMount<S> {
    type V = S;

    closed spec fn view(&self) -> S {
        self.surface
    }
}

impl<S> OperationalMount<S> {
    /// Seals a composed operational surface.
    pub fn compose(surface: S) -> (mount: Self)
        ensures
            mount@ == surface,
    {
        OperationalMount { surface }
    }

    /// Returns the router and registrations the listener serves together.
    pub fn surface(&self) -> (surface: &S)
        ensures
            *surface == self@,
    {
        &self.surface
    }
}

/// The surface the listener currently serves.
pub enum ServingMode<S> {
    /// The pre-operational Client Module surface permitted before sealing.
    PreOperational(S),
    /// No functional route at all; every valid request receives not-found.
    FailClosed(S),
    /// The sealed deployment's operational surface.
    Operational(OperationalMount<S>),
}

pub open spec fn mode_surface<S>(mode: ServingMode<S>) -> S {
    match mode {
        ServingMode::PreOperational(s) => s,
        ServingMode::FailClosed(s) => s,
        ServingMode::Operational(mount) => mount@,
    }
}

impl<S> ServingMode<S> {
    /// Returns the router and registrations this mode serves.
    pub fn surface(&self) -> (surface: &S)
        ensures
            *surface == mode_surface(*self),
    {
        match self {
            ServingMode::PreOperational(surface) => surface,
            ServingMode::FailClosed(surface) => surface,
            ServingMode::Operational(mount) => mount.surface(),
        }
    }
}

/// The publisher the listener's serving mode is switched through; each
/// newly accepted connection serves the mode current when it was accepted.
pub struct ServingModeSwitch<S> {
    current: ServingMode<S>,
}

impl<S> View for ServingModeSwitch<S> {
    type V = ServingMode<S>;

    closed spec fn view(&self) -> ServingMode<S> {
        self.current
    }
}

impl<S> ServingModeSwitch<S> {
    /// A switch that starts in the given mode.
    pub fn new(initial: ServingMode<S>) -> (switch: Self)
        ensures
            switch@ == initial,
    {
        ServingModeSwitch { current: initial }
    }

    /// Serves no functional route from the next accepted connection onward.
    pub fn publish_fail_closed(&mut self, fallback: S)
        ensures
            final(self)@ == ServingMode::FailClosed(fallback),
    {
        self.current = ServingMode::FailClosed(fallback);
    }

    /// Serves the composed operational surface from the next accepted connection onward.
    pub fn publish_operational(&mut self, mount: OperationalMount<S>)
        ensures
            final(self)@ == ServingMode::Operational(mount),
    {
        self.current = ServingMode::Operational(mount);
    }

    /// Serves a newly composed pre-operational surface from the next accepted connection onward.
    pub fn publish_preoperational(&mut self, surface: S)
        ensures
            final(self)@ == ServingMode::PreOperational(surface),
    {
        self.current = ServingMode::PreOperational(surface);
    }

    /// The mode a newly accepted connection serves.
    pub fn current(&self) -> (mode: &ServingMode<S>)
        ensures
            *mode == self@,
    {
        &self.current
    }
}

/// The lifecycle capabilities the pre-operational surface offers.
#[derive(Clone, Copy, Debug, PartialEq, Eq, Structural)]
pub struct PreoperationalOffer {
    /// Restore: the recovery-key submission and the artifact upload.
    pub restore: bool,
    /// Init's recovery-key delivery.
    pub init: bool,
}

/// Restore and Init are offered only once an Application Database has been
/// selected, and Init only by a build that compiles it in.
pub fn preoperational_offer(database_selected: bool, init_compiled_in: bool) -> (offer: PreoperationalOffer)
    ensures
        offer.restore == database_selected,
        offer.init == (database_selected && init_compiled_in),
{
    PreoperationalOffer { restore: database_selected, init: database_selected && init_compiled_in }
}

/// The lifecycle routes actually mounted: those the Client Module declared
/// among those offered. Init finalization is never mounted here; it has a
/// surface of its own once a recovery key was written.
pub fn mounted_lifecycle_routes(offer: PreoperationalOffer, declared_restore: bool, declared_init: bool) -> (mounted: PreoperationalOffer)
    ensures
        mounted.restore == (offer.restore && declared_restore),
        mounted.init == (offer.init && declared_init),
{
    PreoperationalOffer { restore: offer.restore && declared_restore, init: offer.init && declared_init }
}

/// The finalization surface is published only once the written delivery of
/// a recovery key was promoted.
pub fn publishes_finalization(init_compiled_in: bool, delivery_promoted: bool) -> (publish: bool)
    ensures
        publish == (init_compiled_in && delivery_promoted),
{
    init_compiled_in && delivery_promoted
}

/// The reconciliation route's rejections before a body is read.
#[derive(Clone, Copy, Debug, PartialEq, Eq, Structural)]
pub enum ReconciliationRejection {
    RequestOriginDenied,
    BadRequest,
    MethodNotAllowed,
}

/// The transport's pre-body outcome for a reconciliation request.
#[derive(Clone, Copy, Debug, PartialEq, Eq, Structural)]
pub enum ReconciliationPreBody {
    Accepted,
    RequestOriginDenied,
    BadRequest,
}

/// Maps the Client Module's validation onto the transport's closed set.
pub fn reconciliation_precondition(validated: Result<(), ReconciliationRejection>) -> (outcome: ReconciliationPreBody)
    ensures
        outcome == match validated {
            Ok(()) => ReconciliationPreBody::Accepted,
            Err(ReconciliationRejection::RequestOriginDenied) => ReconciliationPreBody::RequestOriginDenied,
            Err(_) => ReconciliationPreBody::BadRequest,
        },
{
    match validated {
        Ok(()) => ReconciliationPreBody::Accepted,
        Err(ReconciliationRejection::RequestOriginDenied) => ReconciliationPreBody::RequestOriginDenied,
        Err(_) => ReconciliationPreBody::BadRequest,
    }
}

/// What a submitted reconciliation capability proves.
#[derive(Clone, Copy, Debug, PartialEq, Eq, Structural)]
pub enum ReconciliationOutcome {
    Confirmed,
    NotFound,
    Unavailable,
}

/// The digest a submitted capability is looked up by.
pub fn submitted_reconciliation_digest(submitted: SecretText) -> (digest: ReconciliationDigest)
    ensures
        digest@ == domain_digest(reconciliation_domain(), sealed_text(submitted)),
{
    ReconciliationCapability::from_submitted(submitted).digest()
}

/// The outcome of the store's lookup of that digest; `None` when the store
/// could not be consulted.
pub fn reconciliation_outcome(matched: Option<bool>) -> (outcome: ReconciliationOutcome)
    ensures
        outcome == match matched {
            Some(true) => ReconciliationOutcome::Confirmed,
            Some(false) => ReconciliationOutcome::NotFound,
            None => ReconciliationOutcome::Unavailable,
        },
{
    match matched {
        Some(true) => ReconciliationOutcome::Confirmed,
        Some(false) => ReconciliationOutcome::NotFound,
        None => ReconciliationOutcome::Unavailable,
    }
}

} // verus!
