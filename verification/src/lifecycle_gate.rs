//! The barrier around the irreversible region of a lifecycle transition, the
//! one-shot action run after a response is written, and the shutdown trigger
//! the listener is handed.
use vstd::prelude::*;

verus! {

/// The barrier a lifecycle transition must be inside to strand durable state.
///
/// At most one holder is inside at a time: a transition, or a shutdown that
/// has waited for the region to empty. Once a stop has begun the barrier refuses
/// every later entrant, and nothing reopens it.
pub struct LifecycleTransitionGate {
    stopping: bool,
    occupied: bool,
}

/// The barrier's state: whether a stop has begun, and whether the region is held.
pub struct GateView {
    pub stopping: bool,
    pub occupied: bool,
}

impl View for LifecycleTransitionGate {
    type V = GateView;

    closed spec fn view(&self) -> GateView {
        GateView { stopping: self.stopping, occupied: self.occupied }
    }
}

impl LifecycleTransitionGate {
    /// An open, empty gate.
    pub fn new() -> (gate: Self)
        ensures
            !gate@.stopping,
            !gate@.occupied,
    {
        LifecycleTransitionGate { stopping: false, occupied: false }
    }

    /// Enters the region, or refuses without waiting: refused once a stop has
    /// begun, and while the region is held.
    pub fn try_enter(&mut self) -> (entered: bool)
        ensures
            (final(self)@, entered) == gate_step(old(self)@, GateOperation::Enter),
    {
        if self.stopping || self.occupied {
            return false;
        }
        self.occupied = true;
        true
    }

    /// Leaves the region; what dropping the entrant's guard does.
    pub fn leave(&mut self)
        ensures
            final(self)@ == gate_step(old(self)@, GateOperation::Leave).0,
    {
        self.occupied = false;
    }

    /// Closes the barrier to every transition that has not already entered it.
    pub fn begin_stopping(&mut self)
        ensures
            final(self)@ == gate_step(old(self)@, GateOperation::BeginStopping).0,
    {
        self.stopping = true;
    }

    /// Whether a holder is inside the region.
    pub fn is_occupied(&self) -> (occupied: bool)
        ensures
            occupied == self@.occupied,
    {
        self.occupied
    }

    /// The shutdown's own acquisition: it takes the region once it is empty
    /// and holds it for the rest of the shutdown.
    pub fn try_quiesce(&mut self) -> (acquired: bool)
        ensures
            acquired == !old(self)@.occupied,
            final(self)@ == gate_step(old(self)@, GateOperation::Quiesce).0,
    {
        if self.occupied {
            return false;
        }
        self.occupied = true;
        true
    }
}

/// The operations the barrier is subject to.
#[derive(Clone, Copy, Debug, PartialEq, Eq, Structural)]
pub enum GateOperation {
    /// A transition tries to enter.
    Enter,
    /// The holder leaves.
    Leave,
    /// A stop begins.
    BeginStopping,
    /// A shutdown tries to take the empty region.
    Quiesce,
}

/// The barrier after one operation, and whether a transition entered.
pub open spec fn gate_step(gate: GateView, operation: GateOperation) -> (GateView, bool) {
    match operation {
        GateOperation::Enter => if !gate.stopping && !gate.occupied {
            (GateView { stopping: gate.stopping, occupied: true }, true)
        } else {
            (gate, false)
        },
        GateOperation::Leave => (GateView { stopping: gate.stopping, occupied: false }, false),
        GateOperation::BeginStopping => (GateView { stopping: true, occupied: gate.occupied }, false),
        GateOperation::Quiesce => (GateView { stopping: gate.stopping, occupied: true }, false),
    }
}

/// The barrier after a run of operations, and whether any transition entered.
pub open spec fn gate_run(gate: GateView, operations: Seq<GateOperation>) -> (GateView, bool)
    decreases operations.len(),
{
    if operations.len() == 0 {
        (gate, false)
    } else {
        let (next, entered) = gate_step(gate, operations[0]);
        let (last, later) = gate_run(next, operations.drop_first());
        (last, entered || later)
    }
}

/// Once a stop has begun, no transition enters the region again, whatever
/// operations follow, and the barrier stays closed.
pub proof fn lemma_stopped_gate_admits_no_transition(gate: GateView, operations: Seq<GateOperation>)
    requires
        gate.stopping,
    ensures
        gate_run(gate, operations).0.stopping,
        !gate_run(gate, operations).1,
    decreases operations.len(),
{
    if operations.len() > 0 {
        lemma_stopped_gate_admits_no_transition(gate_step(gate, operations[0]).0, operations.drop_first());
    }
}

/// While the region is held, no second transition enters until it is left.
pub proof fn lemma_one_holder_at_a_time(gate: GateView)
    requires
        gate.occupied,
    ensures
        gate_step(gate, GateOperation::Enter) == (gate, false),
        gate_step(gate_step(gate, GateOperation::Leave).0, GateOperation::Enter).1 == !gate.stopping,
{
}

/// Whether a signalled shutdown reports the transition as overrunning: with
/// no threshold it always does; otherwise when the threshold elapsed before
/// the region emptied.
pub fn quiescence_overrun(threshold_is_zero: bool, emptied_before_threshold: bool) -> (overrun: bool)
    ensures
        overrun == (threshold_is_zero || !emptied_before_threshold),
{
    threshold_is_zero || !emptied_before_threshold
}

/// An action the listener runs after it has written a response successfully.
///
/// A successful write means every byte was accepted by the transport and the
/// connection was shut down cleanly; it is no evidence that the peer read the
/// response. The action runs at most once.
pub struct ResponseWriteAcknowledgement<A> {
    action: Option<A>,
}

impl<A> View for ResponseWriteAcknowledgement<A> {
    type V = Option<A>;

    closed spec fn view(&self) -> Option<A> {
        self.action
    }
}

impl<A: FnOnce()> ResponseWriteAcknowledgement<A> {
    /// Creates the acknowledgement a response carries to the listener.
    pub fn new(action: A) -> (acknowledgement: Self)
        ensures
            acknowledgement@ == Some(action),
    {
        ResponseWriteAcknowledgement { action: Some(action) }
    }

    /// Runs the action if it has not run yet; it is taken before it runs, so
    /// every later call finds nothing to run.
    pub fn run(&mut self) -> (ran: bool)
        requires
            old(self)@ matches Some(action) ==> call_requires(action, ()),
        ensures
            ran == old(self)@ is Some,
            old(self)@ matches Some(action) ==> call_ensures(action, (), ()),
            final(self)@ is None,
    {
        match self.action.take() {
            Some(action) => {
                action();
                true
            },
            None => false,
        }
    }
}

/// The trigger whose completion begins an orderly shutdown.
///
/// The listener is handed the trigger rather than installing one, so process
/// signal policy stays at the process boundary and a test can drive the same
/// shutdown path without raising a real signal.
pub struct ShutdownSignal<F> {
    signalled: F,
}

impl<F> View for ShutdownSignal<F> {
    type V = F;

    closed spec fn view(&self) -> F {
        self.signalled
    }
}

impl<F> ShutdownSignal<F> {
    /// Wraps the trigger whose completion asks the listener to stop.
    pub fn new(signalled: F) -> (signal: Self)
        ensures
            signal@ == signalled,
    {
        ShutdownSignal { signalled }
    }

    /// Hands the trigger to the listener that awaits it.
    pub fn into_trigger(self) -> (signalled: F)
        ensures
            signalled == self@,
    {
        self.signalled
    }
}

} // verus!
