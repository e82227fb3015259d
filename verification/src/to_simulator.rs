//! Commands a client issues to the engine: lifecycle transitions and the
//! subscribe/unsubscribe lifecycle of signal tracking.

use vstd::prelude::*;
use crate::design_hierarchy::SignalInstanceId;

verus! {

/// The commands a client issues to the engine. Lifecycle commands are safe
/// to issue in any state: one that does not apply to the current state is
/// ignored. `StopSimulation` is terminal.
#[derive(Debug)]
pub enum Command {
    StartSimulation,
    PauseSimulation,
    ResumeSimulation,
    RestartSimulation,
    StopSimulation,
    TrackSignals(SignalTrackingRequest),
}

/// A request to change which signal instances have value/event updates
/// delivered to this client.
///
/// `enabled` switches delivery for the named instances: true turns it on,
/// false turns it off. `subscribe` settles the fate of the identifiers in
/// the client's remembered subscription set: true keeps them remembered
/// (also while delivery is off), false drops them from it (an enable with
/// `subscribe` false is a one-shot request that is not remembered).
#[derive(Debug)]
pub struct SignalTrackingRequest {
    pub signal_instance_ids: Vec<SignalInstanceId>,
    /// True => tracking is required for this client. False => tracking is no
    /// longer required for this client.
    pub enabled: bool,
    pub subscribe: bool,
}

} // verus!
