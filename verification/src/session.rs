//! The per-simulation session: the engine-side state machine over lifecycle
//! commands, the per-client tracking sets, and the guard that every outgoing
//! notification must satisfy.
//!
//! The guard enforces the protocol's central guarantee: the engine never emits
//! an update batch referencing a signal instance that was not both declared
//! in the current hierarchy snapshot and currently enabled for tracking by
//! this client, never emits an update before the snapshot for the current
//! run has gone out, never emits anything after a stop, and emits update
//! windows in non-decreasing time order.

use vstd::prelude::*;
use vstd::seq_lib::lemma_seq_contains_after_push;
use crate::SimulationStatus;
use crate::design_hierarchy::DesignHierarchy;
use crate::design_hierarchy::SignalInstanceId;
use crate::from_simulator::SignalValuesInRange;
use crate::from_simulator::SimulationUpdate;
use crate::time::Delta;
use crate::time::LogicalTime;
use crate::time::PhysicalTime;
use crate::to_simulator::Command;

verus! {

broadcast use lemma_seq_contains_after_push;

/// Whether one of the given identifiers has the raw value `x`.
pub open spec fn ids_contain_spec(ids: Seq<SignalInstanceId>, x: u32) -> bool {
    exists|k: int| 0 <= k < ids.len() && ids[k].0 == x
}

/// Whether a list of raw identifiers holds `x`.
fn vec_contains_raw(v: &Vec<u32>, x: u32) -> (r: bool)
    ensures
        r == v@.contains(x),
{
    let mut i: usize = 0;
    while i < v.len()
        invariant
            i <= v@.len(),
            forall|k: int| 0 <= k < i ==> v@[k] != x,
        decreases v@.len() - i,
    {
        if v[i] == x {
            return true;
        }
        i = i + 1;
    }
    false
}

/// Whether one of the given identifiers has the raw value `x`.
fn ids_contain(ids: &Vec<SignalInstanceId>, x: u32) -> (r: bool)
    ensures
        r == ids_contain_spec(ids@, x),
{
    let mut i: usize = 0;
    while i < ids.len()
        invariant
            i <= ids@.len(),
            forall|k: int| 0 <= k < i ==> ids@[k].0 != x,
        decreases ids@.len() - i,
    {
        if ids[i].0 == x {
            return true;
        }
        i = i + 1;
    }
    false
}

/// Adds the raw values of the given identifiers to `dst`, keeping each raw
/// value at most once if it was so before.
fn add_ids(dst: &mut Vec<u32>, ids: &Vec<SignalInstanceId>)
    ensures
        forall|x: u32| #![trigger final(dst)@.contains(x)]
            final(dst)@.contains(x) <==> (old(dst)@.contains(x) || ids_contain_spec(ids@, x)),
{
    let mut i: usize = 0;
    while i < ids.len()
        invariant
            i <= ids@.len(),
            forall|x: u32|
                dst@.contains(x) <==> (old(dst)@.contains(x) || ids_contain_spec(
                    ids@.take(i as int),
                    x,
                )),
        decreases ids@.len() - i,
    {
        let ghost prefix = ids@.take(i as int);
        let raw = ids[i].0;
        if !vec_contains_raw(dst, raw) {
            dst.push(raw);
        }
        proof {
            let next = ids@.take(i + 1 as int);
            assert forall|x: u32|
                ids_contain_spec(next, x) == (ids_contain_spec(prefix, x) || ids@[i as int].0
                    == x) by {
                if ids_contain_spec(next, x) {
                    let k = choose|k: int| 0 <= k < next.len() && next[k].0 == x;
                    if k < i as int {
                        assert(prefix[k].0 == x);
                    }
                }
                if ids_contain_spec(prefix, x) {
                    let k = choose|k: int| 0 <= k < prefix.len() && prefix[k].0 == x;
                    assert(next[k].0 == x);
                }
                if ids@[i as int].0 == x {
                    assert(next[i as int].0 == x);
                }
            }
        }
        i = i + 1;
    }
    proof {
        assert(ids@.take(ids@.len() as int) =~= ids@);
    }
}

/// Removes every raw value of the given identifiers from `dst`.
fn remove_ids(dst: &mut Vec<u32>, ids: &Vec<SignalInstanceId>)
    ensures
        forall|x: u32| #![trigger final(dst)@.contains(x)]
            final(dst)@.contains(x) <==> (old(dst)@.contains(x) && !ids_contain_spec(ids@, x)),
{
    let mut kept: Vec<u32> = Vec::new();
    let mut i: usize = 0;
    while i < dst.len()
        invariant
            i <= dst@.len(),
            forall|x: u32|
                kept@.contains(x) <==> (dst@.take(i as int).contains(x) && !ids_contain_spec(
                    ids@,
                    x,
                )),
        decreases dst@.len() - i,
    {
        let ghost prefix = dst@.take(i as int);
        let raw = dst[i];
        if !ids_contain(ids, raw) {
            kept.push(raw);
        }
        proof {
            let next = dst@.take(i + 1 as int);
            assert(next =~= prefix.push(dst@[i as int]));
        }
        i = i + 1;
    }
    proof {
        assert(dst@.take(dst@.len() as int) =~= dst@);
    }
    *dst = kept;
}

/// One engine-side simulation session, serving one client over an ordered
/// reliable channel.
///
/// The hierarchy and its identifiers are fixed when the session is created
/// and are immutable for the run; restarting re-issues the snapshot and
/// withdraws every tracking decision, since previously valid identifiers are
/// no longer guaranteed until re-declared.
pub struct Session {
    /// The elaborated design of this simulation.
    pub hierarchy: DesignHierarchy,
    /// The raw identifiers the hierarchy declares, in depth-first order.
    pub declared_ids: Vec<u32>,
    /// Lifecycle state; `None` until the simulation is first started.
    pub status: Option<SimulationStatus>,
    /// Whether the snapshot for the current run has been emitted.
    pub hierarchy_emitted: bool,
    /// Raw identifiers with delivery currently enabled for this client.
    pub enabled_ids: Vec<u32>,
    /// Raw identifiers remembered for this client even while delivery is off.
    pub subscribed_ids: Vec<u32>,
    /// End of the last emitted update window.
    pub last_update_end: LogicalTime,
}

impl Session {
    /// The cached identifier list is exactly what the hierarchy declares.
    pub open spec fn wf(self) -> bool {
        self.declared_ids@ == self.hierarchy.declared_ids_spec()
    }

    /// Delivery of updates for raw identifier `x` is currently enabled.
    pub open spec fn is_tracked_spec(self, x: u32) -> bool {
        self.enabled_ids@.contains(x)
    }

    /// The hierarchy declares raw identifier `x`.
    pub open spec fn is_declared_spec(self, x: u32) -> bool {
        self.declared_ids@.contains(x)
    }

    /// A fresh, not yet started session over an elaborated design.
    pub fn new(hierarchy: DesignHierarchy) -> (r: Session)
        ensures
            r.wf(),
            r.status is None,
            !r.hierarchy_emitted,
            r.enabled_ids@.len() == 0,
            r.subscribed_ids@.len() == 0,
            r.hierarchy.declared_ids_spec() == hierarchy.declared_ids_spec(),
            r.last_update_end == (LogicalTime { physical: PhysicalTime(0), delta: Delta(0) }),
    {
        let declared_ids = hierarchy.collect_declared_ids();
        Session {
            hierarchy,
            declared_ids,
            status: None,
            hierarchy_emitted: false,
            enabled_ids: Vec::new(),
            subscribed_ids: Vec::new(),
            last_update_end: LogicalTime::new(PhysicalTime(0), Delta(0)),
        }
    }

    /// Applies one client command and returns the notifications it produces,
    /// in emission order.
    ///
    /// Starting an uninitialized session emits the started event followed by
    /// the hierarchy snapshot. Pause and resume toggle between running and
    /// paused. Restart returns a live session to time zero, re-issues a
    /// fresh snapshot, and withdraws all tracking. Stop is terminal. A
    /// lifecycle command that does not apply to the current state is
    /// ignored. A tracking request updates the enabled set (union when
    /// `enabled`, difference when not) and the remembered subscription set
    /// (union when `subscribe`, difference when not) and emits nothing.
    pub fn apply_command(&mut self, command: &Command) -> (out: Vec<SimulationUpdate>)
        requires
            old(self).wf(),
        ensures
            final(self).wf(),
            final(self).declared_ids@ == old(self).declared_ids@,
            final(self).hierarchy == old(self).hierarchy,
            match *command {
                Command::StartSimulation => if old(self).status is None {
                    &&& final(self).status == Some(SimulationStatus::Running)
                    &&& final(self).hierarchy_emitted
                    &&& out@.len() == 2
                    &&& out@[0] is SimulationStarted
                    &&& (out@[1] matches SimulationUpdate::DesignHierarchy(h)
                        && h.declared_ids_spec() == old(self).declared_ids@)
                    &&& final(self).enabled_ids@ == old(self).enabled_ids@
                    &&& final(self).subscribed_ids@ == old(self).subscribed_ids@
                    &&& final(self).last_update_end == old(self).last_update_end
                } else {
                    *final(self) == *old(self) && out@.len() == 0
                },
                Command::PauseSimulation => if old(self).status == Some(
                    SimulationStatus::Running,
                ) {
                    &&& *final(self) == (Session {
                        status: Some(SimulationStatus::Paused),
                        ..*old(self)
                    })
                    &&& out@.len() == 1
                    &&& out@[0] is SimulationPaused
                } else {
                    *final(self) == *old(self) && out@.len() == 0
                },
                Command::ResumeSimulation => if old(self).status == Some(
                    SimulationStatus::Paused,
                ) {
                    &&& *final(self) == (Session {
                        status: Some(SimulationStatus::Running),
                        ..*old(self)
                    })
                    &&& out@.len() == 1
                    &&& out@[0] is SimulationResumed
                } else {
                    *final(self) == *old(self) && out@.len() == 0
                },
                Command::RestartSimulation => if old(self).status == Some(
                    SimulationStatus::Running,
                ) || old(self).status == Some(SimulationStatus::Paused) {
                    &&& final(self).status == Some(SimulationStatus::Running)
                    &&& final(self).hierarchy_emitted
                    &&& out@.len() == 1
                    &&& (out@[0] matches SimulationUpdate::DesignHierarchy(h)
                        && h.declared_ids_spec() == old(self).declared_ids@)
                    &&& final(self).enabled_ids@.len() == 0
                    &&& final(self).subscribed_ids@.len() == 0
                    &&& final(self).last_update_end == (LogicalTime {
                        physical: PhysicalTime(0),
                        delta: Delta(0),
                    })
                } else {
                    *final(self) == *old(self) && out@.len() == 0
                },
                Command::StopSimulation => if old(self).status == Some(SimulationStatus::Running)
                    || old(self).status == Some(SimulationStatus::Paused) {
                    &&& *final(self) == (Session {
                        status: Some(SimulationStatus::Stopped),
                        ..*old(self)
                    })
                    &&& out@.len() == 1
                    &&& out@[0] is SimulationStopped
                } else {
                    *final(self) == *old(self) && out@.len() == 0
                },
                Command::TrackSignals(req) => {
                    &&& out@.len() == 0
                    &&& final(self).status == old(self).status
                    &&& final(self).hierarchy_emitted == old(self).hierarchy_emitted
                    &&& final(self).last_update_end == old(self).last_update_end
                    &&& (forall|x: u32|
                        final(self).enabled_ids@.contains(x) <==> if req.enabled {
                            old(self).enabled_ids@.contains(x) || ids_contain_spec(
                                req.signal_instance_ids@,
                                x,
                            )
                        } else {
                            old(self).enabled_ids@.contains(x) && !ids_contain_spec(
                                req.signal_instance_ids@,
                                x,
                            )
                        })
                    &&& (forall|x: u32|
                        final(self).subscribed_ids@.contains(x) <==> if req.subscribe {
                            old(self).subscribed_ids@.contains(x) || ids_contain_spec(
                                req.signal_instance_ids@,
                                x,
                            )
                        } else {
                            old(self).subscribed_ids@.contains(x) && !ids_contain_spec(
                                req.signal_instance_ids@,
                                x,
                            )
                        })
                },
            },
    {
        let mut out: Vec<SimulationUpdate> = Vec::new();
        match command {
            Command::StartSimulation => {
                if self.status.is_none() {
                    self.status = Some(SimulationStatus::Running);
                    self.hierarchy_emitted = true;
                    out.push(SimulationUpdate::SimulationStarted);
                    out.push(SimulationUpdate::DesignHierarchy(self.hierarchy.clone()));
                }
            },
            Command::PauseSimulation => {
                if self.status == Some(SimulationStatus::Running) {
                    self.status = Some(SimulationStatus::Paused);
                    out.push(SimulationUpdate::SimulationPaused);
                }
            },
            Command::ResumeSimulation => {
                if self.status == Some(SimulationStatus::Paused) {
                    self.status = Some(SimulationStatus::Running);
                    out.push(SimulationUpdate::SimulationResumed);
                }
            },
            Command::RestartSimulation => {
                if self.status == Some(SimulationStatus::Running) || self.status == Some(
                    SimulationStatus::Paused,
                ) {
                    self.status = Some(SimulationStatus::Running);
                    self.hierarchy_emitted = true;
                    self.enabled_ids = Vec::new();
                    self.subscribed_ids = Vec::new();
                    self.last_update_end = LogicalTime::new(PhysicalTime(0), Delta(0));
                    out.push(SimulationUpdate::DesignHierarchy(self.hierarchy.clone()));
                }
            },
            Command::StopSimulation => {
                if self.status == Some(SimulationStatus::Running) || self.status == Some(
                    SimulationStatus::Paused,
                ) {
                    self.status = Some(SimulationStatus::Stopped);
                    out.push(SimulationUpdate::SimulationStopped);
                }
            },
            Command::TrackSignals(req) => {
                if req.enabled {
                    add_ids(&mut self.enabled_ids, &req.signal_instance_ids);
                } else {
                    remove_ids(&mut self.enabled_ids, &req.signal_instance_ids);
                }
                if req.subscribe {
                    add_ids(&mut self.subscribed_ids, &req.signal_instance_ids);
                } else {
                    remove_ids(&mut self.subscribed_ids, &req.signal_instance_ids);
                }
            },
        }
        out
    }

    /// The emission guarantee: an update may go out exactly when the
    /// simulation is running, the snapshot for the current run has been
    /// emitted, the window follows the previous one and is not reversed, the
    /// update is well formed, and every batch in it is for a signal instance
    /// that is both declared and currently enabled.
    pub open spec fn may_emit_spec(self, update: SignalValuesInRange) -> bool {
        &&& self.status == Some(SimulationStatus::Running)
        &&& self.hierarchy_emitted
        &&& self.last_update_end.le_spec(update.time_range.start)
        &&& update.time_range.start.le_spec(update.time_range.end)
        &&& update.wf()
        &&& forall|i: int|
            0 <= i < update.values_in_range@.len() ==> self.declared_ids@.contains(
                (#[trigger] update.values_in_range@[i]).signal_instance_id_spec().0,
            ) && self.enabled_ids@.contains(
                update.values_in_range@[i].signal_instance_id_spec().0,
            )
    }

    /// Passes an update through the emission guard: wraps it as a
    /// notification and advances the session's time window exactly when the
    /// guarantee allows it, and refuses it — leaving the session unchanged —
    /// otherwise.
    pub fn emit_update(&mut self, update: SignalValuesInRange) -> (r: Option<SimulationUpdate>)
        requires
            old(self).wf(),
        ensures
            final(self).wf(),
            old(self).may_emit_spec(update) ==> ({
                &&& (r matches Some(SimulationUpdate::SignalValuesInRange(u)) && u == update)
                &&& *final(self) == (Session {
                    last_update_end: update.time_range.end,
                    ..*old(self)
                })
            }),
            !old(self).may_emit_spec(update) ==> r is None && *final(self) == *old(self),
    {
        if !(self.status == Some(SimulationStatus::Running)) {
            return None;
        }
        if !self.hierarchy_emitted {
            return None;
        }
        let s = self.last_update_end;
        let a = update.time_range.start;
        let b = update.time_range.end;
        if !(s.physical.0 < a.physical.0 || (s.physical.0 == a.physical.0 && s.delta.0
            <= a.delta.0)) {
            return None;
        }
        if !(a.physical.0 < b.physical.0 || (a.physical.0 == b.physical.0 && a.delta.0
            <= b.delta.0)) {
            return None;
        }
        if !update.check_well_formed() {
            return None;
        }
        let n = update.values_in_range.len();
        let mut i: usize = 0;
        while i < n
            invariant
                n == update.values_in_range@.len(),
                i <= n,
                forall|k: int|
                    0 <= k < i ==> self.declared_ids@.contains(
                        (#[trigger] update.values_in_range@[k]).signal_instance_id_spec().0,
                    ) && self.enabled_ids@.contains(
                        update.values_in_range@[k].signal_instance_id_spec().0,
                    ),
                *self == *old(self),
                old(self).wf(),
            decreases n - i,
        {
            let raw = update.values_in_range[i].get_signal_instance_id().0;
            if !vec_contains_raw(&self.declared_ids, raw) {
                return None;
            }
            if !vec_contains_raw(&self.enabled_ids, raw) {
                return None;
            }
            i = i + 1;
        }
        self.last_update_end = update.time_range.end;
        Some(SimulationUpdate::SignalValuesInRange(update))
    }
}

/// An update carrying a batch for a signal whose delivery is not enabled can
/// never pass the emission guard: disabling tracking excludes the signal from
/// every subsequent update until it is re-enabled.
pub proof fn lemma_untracked_signal_excluded(
    s: Session,
    update: SignalValuesInRange,
    i: int,
)
    requires
        0 <= i < update.values_in_range@.len(),
        !s.enabled_ids@.contains(update.values_in_range@[i].signal_instance_id_spec().0),
    ensures
        !s.may_emit_spec(update),
{
}

/// An update carrying a batch for a signal the hierarchy does not declare
/// can never pass the emission guard.
pub proof fn lemma_undeclared_signal_excluded(
    s: Session,
    update: SignalValuesInRange,
    i: int,
)
    requires
        0 <= i < update.values_in_range@.len(),
        !s.declared_ids@.contains(update.values_in_range@[i].signal_instance_id_spec().0),
    ensures
        !s.may_emit_spec(update),
{
}

/// No update satisfies the guard before the hierarchy snapshot of the current
/// run has been emitted: a start or restart puts the snapshot ahead of every
/// update notification.
pub proof fn lemma_no_update_before_hierarchy(s: Session, update: SignalValuesInRange)
    requires
        !s.hierarchy_emitted,
    ensures
        !s.may_emit_spec(update),
{
}

/// A stopped session is terminal: no update satisfies the guard after a stop.
pub proof fn lemma_stopped_session_is_terminal(s: Session, update: SignalValuesInRange)
    requires
        s.status == Some(SimulationStatus::Stopped),
    ensures
        !s.may_emit_spec(update),
{
}

/// Whatever satisfies the guard carries only batches whose signal instances are
/// both declared in the hierarchy and currently enabled for this client, and
/// its window contains every event timestamp it carries.
pub proof fn lemma_emitted_update_is_sound(s: Session, update: SignalValuesInRange, i: int)
    requires
        s.may_emit_spec(update),
        0 <= i < update.values_in_range@.len(),
    ensures
        s.is_declared_spec(update.values_in_range@[i].signal_instance_id_spec().0),
        s.is_tracked_spec(update.values_in_range@[i].signal_instance_id_spec().0),
        update.values_in_range@[i].events_in_range_spec(
            update.time_range.start,
            update.time_range.end,
        ),
{
}

} // verus!
