//! Notifications the engine sends to a client: lifecycle events, the design
//! hierarchy snapshot, and incremental value/event batches windowed by a
//! half-open range of logical time.
//!
//! A batch ([`NewValues`]) is a per-signal, time-ordered, append-only log of
//! value changes, stored as parallel equal-length columns of timestamps and
//! values so that differently-typed values never mix in one array. A batch
//! may be empty: an empty batch for a tracked signal means "no change in
//! range", which a client must distinguish from "not tracked" via its
//! tracking set, never via batch presence.

use vstd::prelude::*;
use core::ops::Range;
use crate::Logic;
use crate::SignalValueType;
use crate::design_hierarchy::DesignHierarchy;
use crate::design_hierarchy::SignalInstanceId;
use crate::time::LogicalTime;

verus! {

/// An opaque 64-bit pattern: the type-erasure escape hatch for a producer
/// that knows a bit pattern — most often the IEEE-754 bits of a 64-bit
/// floating-point value — before it knows the destination typed slot. A
/// consumer must already know, out of band, which concrete type it encodes.
#[derive(Clone, Copy, PartialEq, Eq, Structural, Debug, Hash)]
pub struct RawValue(pub u64);

impl RawValue {
    /// Wraps a 64-bit pattern unchanged.
    pub fn from_bits(bits: u64) -> (r: Self)
        ensures
            r.0 == bits,
    {
        RawValue(bits)
    }

    /// The wrapped 64-bit pattern, unchanged.
    pub fn to_bits(self) -> (r: u64)
        ensures
            r == self.0,
    {
        self.0
    }
}

/// Wrapping a 64-bit pattern and unwrapping it gives the pattern back
/// bit for bit.
pub proof fn lemma_raw_value_round_trip(bits: u64)
    ensures
        RawValue(bits).0 == bits,
{
}

/// A time-ordered append-only log of value changes for one signal instance:
/// parallel equal-length columns where `(timestamps[i], values[i])` is event
/// `i`, produced already sorted by logical time non-decreasing.
#[derive(Clone, Debug)]
pub struct NewValues<Value> {
    pub signal_instance_id: SignalInstanceId,
    pub timestamps: Vec<LogicalTime>,
    pub values: Vec<Value>,
}

/// The timestamps are sorted non-decreasing in the lexicographic order of
/// logical time.
pub open spec fn sorted_times_spec(ts: Seq<LogicalTime>) -> bool {
    forall|i: int, j: int| #![trigger ts[i], ts[j]] 0 <= i < j < ts.len() ==> ts[i].le_spec(ts[j])
}

/// Every timestamp lies in the half-open window `[start, end)`.
pub open spec fn times_in_range_spec(
    ts: Seq<LogicalTime>,
    start: LogicalTime,
    end: LogicalTime,
) -> bool {
    forall|j: int| 0 <= j < ts.len() ==> start.le_spec(#[trigger] ts[j]) && ts[j].lt_spec(end)
}

/// Appending a timestamp no earlier than the last keeps the column sorted.
proof fn lemma_sorted_push(ts: Seq<LogicalTime>, t: LogicalTime)
    requires
        sorted_times_spec(ts),
        ts.len() > 0 ==> ts.last().le_spec(t),
    ensures
        sorted_times_spec(ts + seq![t]),
{
    let ext = ts + seq![t];
    assert forall|i: int, j: int| #![trigger ext[i], ext[j]]
        0 <= i < j < ext.len() implies ext[i].le_spec(ext[j]) by {
        if j < ts.len() as int {
            assert(ts[i].le_spec(ts[j]));
        } else {
            assert(ext[j] == t);
            if i < ts.len() as int - 1 {
                assert(ts[i].le_spec(ts[ts.len() - 1]));
            }
        }
    }
}

impl<Value> NewValues<Value> {
    /// The columns pair up — equal lengths — and the timestamps are sorted
    /// non-decreasing in the lexicographic order of logical time.
    pub open spec fn wf(self) -> bool {
        &&& self.timestamps@.len() == self.values@.len()
        &&& sorted_times_spec(self.timestamps@)
    }

    /// An empty batch for the given signal.
    pub fn new(signal_instance_id: SignalInstanceId) -> (r: Self)
        ensures
            r.signal_instance_id == signal_instance_id,
            r.timestamps@.len() == 0,
            r.values@.len() == 0,
            r.wf(),
    {
        Self { signal_instance_id, timestamps: Vec::new(), values: Vec::new() }
    }

    /// An empty batch for the same signal: the structural placeholder used
    /// when merging or diffing update streams.
    pub fn clone_empty(&self) -> (r: Self)
        ensures
            r.signal_instance_id == self.signal_instance_id,
            r.timestamps@.len() == 0,
            r.values@.len() == 0,
            r.wf(),
    {
        Self {
            signal_instance_id: self.signal_instance_id,
            timestamps: Vec::new(),
            values: Vec::new(),
        }
    }

    /// Appends event `(timestamp, value)`. The log is append-only and stays
    /// sorted, so the new timestamp may not precede the last one.
    pub fn push_event(&mut self, timestamp: LogicalTime, value: Value)
        requires
            old(self).wf(),
            old(self).timestamps@.len() > 0 ==> old(self).timestamps@.last().le_spec(timestamp),
        ensures
            final(self).signal_instance_id == old(self).signal_instance_id,
            final(self).timestamps@ == old(self).timestamps@ + seq![timestamp],
            final(self).values@ == old(self).values@ + seq![value],
            final(self).wf(),
    {
        proof {
            lemma_sorted_push(self.timestamps@, timestamp);
        }
        self.timestamps.push(timestamp);
        self.values.push(value);
    }
}

/// A typed batch: the closed set of value domains the transport carries.
/// Floating-point events are carried as [`RawValue`] bit patterns.
#[derive(Clone, Debug)]
pub enum NewValuesEnum {
    F64(NewValues<RawValue>),
    Logic(NewValues<Logic>),
    U8(NewValues<u8>),
}

impl NewValuesEnum {
    /// The inner batch is well formed.
    pub open spec fn wf(self) -> bool {
        match self {
            NewValuesEnum::F64(nv) => nv.wf(),
            NewValuesEnum::Logic(nv) => nv.wf(),
            NewValuesEnum::U8(nv) => nv.wf(),
        }
    }

    /// The signal instance this batch is for.
    pub open spec fn signal_instance_id_spec(self) -> SignalInstanceId {
        match self {
            NewValuesEnum::F64(nv) => nv.signal_instance_id,
            NewValuesEnum::Logic(nv) => nv.signal_instance_id,
            NewValuesEnum::U8(nv) => nv.signal_instance_id,
        }
    }

    /// The timestamp column of the inner batch.
    pub open spec fn timestamps_spec(self) -> Seq<LogicalTime> {
        match self {
            NewValuesEnum::F64(nv) => nv.timestamps@,
            NewValuesEnum::Logic(nv) => nv.timestamps@,
            NewValuesEnum::U8(nv) => nv.timestamps@,
        }
    }

    /// An empty batch of the requested value domain for the given signal.
    pub fn new(signal_instance_id: SignalInstanceId, value_type: SignalValueType) -> (r: Self)
        ensures
            r.signal_instance_id_spec() == signal_instance_id,
            r.timestamps_spec().len() == 0,
            r.wf(),
            match value_type {
                SignalValueType::F64 => r is F64,
                SignalValueType::Logic => r is Logic,
                SignalValueType::U8 => r is U8,
            },
    {
        match value_type {
            SignalValueType::F64 => NewValuesEnum::F64(NewValues::new(signal_instance_id)),
            SignalValueType::Logic => NewValuesEnum::Logic(NewValues::new(signal_instance_id)),
            SignalValueType::U8 => NewValuesEnum::U8(NewValues::new(signal_instance_id)),
        }
    }

    /// The signal instance this batch is for.
    #[must_use]
    pub fn get_signal_instance_id(&self) -> (r: SignalInstanceId)
        ensures
            r == self.signal_instance_id_spec(),
    {
        match self {
            NewValuesEnum::F64(new_values) => new_values.signal_instance_id,
            NewValuesEnum::Logic(new_values) => new_values.signal_instance_id,
            NewValuesEnum::U8(new_values) => new_values.signal_instance_id,
        }
    }

    /// An empty batch of the same value domain for the same signal.
    pub fn clone_empty(&self) -> (r: Self)
        ensures
            r.signal_instance_id_spec() == self.signal_instance_id_spec(),
            r.timestamps_spec().len() == 0,
            r.wf(),
            r is F64 <==> self is F64,
            r is Logic <==> self is Logic,
            r is U8 <==> self is U8,
    {
        match self {
            NewValuesEnum::F64(new_values) => NewValuesEnum::F64(new_values.clone_empty()),
            NewValuesEnum::Logic(new_values) => NewValuesEnum::Logic(new_values.clone_empty()),
            NewValuesEnum::U8(new_values) => NewValuesEnum::U8(new_values.clone_empty()),
        }
    }

    /// Every event timestamp of this batch lies in the half-open range
    /// `[start, end)`.
    pub open spec fn events_in_range_spec(self, start: LogicalTime, end: LogicalTime) -> bool {
        times_in_range_spec(self.timestamps_spec(), start, end)
    }
}

/// One incremental update: a half-open window `[start, end)` of logical time
/// and, for each tracked signal, the value changes that fell inside it.
#[derive(Debug)]
pub struct SignalValuesInRange {
    pub time_range: Range<LogicalTime>,
    pub values_in_range: Vec<NewValuesEnum>,
}

impl SignalValuesInRange {
    /// The declared window contains every event timestamp carried in any
    /// batch, and every batch is well formed.
    pub open spec fn wf(self) -> bool {
        &&& forall|i: int| 0 <= i < self.values_in_range@.len() ==> (#[trigger] self.values_in_range@[i]).wf()
        &&& forall|i: int|
            0 <= i < self.values_in_range@.len() ==> (#[trigger] self.values_in_range@[i]).events_in_range_spec(
                self.time_range.start,
                self.time_range.end,
            )
    }

    /// An update for the given window carrying no batches yet.
    pub fn new(time_range: Range<LogicalTime>) -> (r: Self)
        ensures
            r.time_range == time_range,
            r.values_in_range@.len() == 0,
            r.wf(),
    {
        SignalValuesInRange { time_range, values_in_range: Vec::new() }
    }

    /// Adds one signal's batch to the update; the batch must be well formed
    /// with all its events inside the declared window.
    pub fn push_batch(&mut self, batch: NewValuesEnum)
        requires
            batch.wf(),
            batch.events_in_range_spec(old(self).time_range.start, old(self).time_range.end),
        ensures
            final(self).time_range == old(self).time_range,
            final(self).values_in_range@ == old(self).values_in_range@ + seq![batch],
            old(self).wf() ==> final(self).wf(),
    {
        self.values_in_range.push(batch);
    }

    /// Checks that the declared window contains every carried event
    /// timestamp and that every batch pairs its columns in sorted order:
    /// exactly the well-formedness of the update.
    pub fn check_well_formed(&self) -> (r: bool)
        ensures
            r == self.wf(),
    {
        let n = self.values_in_range.len();
        let mut i: usize = 0;
        while i < n
            invariant
                n == self.values_in_range@.len(),
                i <= n,
                forall|k: int| 0 <= k < i ==> (#[trigger] self.values_in_range@[k]).wf(),
                forall|k: int|
                    0 <= k < i ==> (#[trigger] self.values_in_range@[k]).events_in_range_spec(
                        self.time_range.start,
                        self.time_range.end,
                    ),
            decreases n - i,
        {
            let ok = Self::check_batch(&self.values_in_range[i], &self.time_range);
            if !ok {
                return false;
            }
            i = i + 1;
        }
        true
    }

    /// Checks that one batch is well formed with every event inside the
    /// half-open window.
    fn check_batch(batch: &NewValuesEnum, range: &Range<LogicalTime>) -> (r: bool)
        ensures
            r == (batch.wf() && batch.events_in_range_spec(range.start, range.end)),
    {
        match batch {
            NewValuesEnum::F64(nv) => Self::check_batch_columns(
                &nv.timestamps,
                nv.values.len(),
                range,
            ),
            NewValuesEnum::Logic(nv) => Self::check_batch_columns(
                &nv.timestamps,
                nv.values.len(),
                range,
            ),
            NewValuesEnum::U8(nv) => Self::check_batch_columns(
                &nv.timestamps,
                nv.values.len(),
                range,
            ),
        }
    }

    /// Checks one batch's columns: equal lengths, sorted timestamps, and all
    /// timestamps inside the half-open window.
    fn check_batch_columns(
        timestamps: &Vec<LogicalTime>,
        values_len: usize,
        range: &Range<LogicalTime>,
    ) -> (r: bool)
        ensures
            r == ({
                &&& timestamps@.len() == values_len
                &&& sorted_times_spec(timestamps@)
                &&& times_in_range_spec(timestamps@, range.start, range.end)
            }),
    {
        if timestamps.len() != values_len {
            return false;
        }
        let n = timestamps.len();
        let mut j: usize = 0;
        while j < n
            invariant
                n == timestamps@.len(),
                j <= n,
                forall|a: int, b: int| 0 <= a < b < j ==> timestamps@[a].le_spec(timestamps@[b]),
                forall|b: int|
                    0 <= b < j ==> range.start.le_spec(#[trigger] timestamps@[b])
                        && timestamps@[b].lt_spec(range.end),
            decreases n - j,
        {
            let t = timestamps[j];
            if j > 0 {
                let prev = timestamps[j - 1];
                if !(prev.physical.0 < t.physical.0 || (prev.physical.0 == t.physical.0
                    && prev.delta.0 <= t.delta.0)) {
                    proof {
                        assert(!timestamps@[j - 1].le_spec(timestamps@[j as int]));
                    }
                    return false;
                }
            }
            let start_le = range.start.physical.0 < t.physical.0 || (range.start.physical.0
                == t.physical.0 && range.start.delta.0 <= t.delta.0);
            let lt_end = t.physical.0 < range.end.physical.0 || (t.physical.0
                == range.end.physical.0 && t.delta.0 < range.end.delta.0);
            if !(start_le && lt_end) {
                proof {
                    assert(start_le == range.start.le_spec(t));
                    assert(lt_end == t.lt_spec(range.end));
                    let tj = timestamps@[j as int];
                    assert(!(range.start.le_spec(tj) && tj.lt_spec(range.end)));
                }
                return false;
            }
            proof {
                assert forall|a: int, b: int| 0 <= a < b < j + 1 implies timestamps@[a].le_spec(
                    timestamps@[b],
                ) by {
                    if b < j {
                    } else {
                        if a < j - 1 {
                            assert(timestamps@[a].le_spec(timestamps@[j - 1]));
                        }
                    }
                }
            }
            j = j + 1;
        }
        true
    }

    /// The index of the first batch carried for the given signal, if one is.
    /// Batch presence says nothing about tracking: an empty batch is a valid
    /// "no change in range" for a tracked signal.
    pub fn batch_index_for(&self, id: SignalInstanceId) -> (r: Option<usize>)
        ensures
            match r {
                Some(i) => i < self.values_in_range@.len()
                    && self.values_in_range@[i as int].signal_instance_id_spec() == id && forall|
                    k: int,
                |
                    0 <= k < i ==> (#[trigger] self.values_in_range@[k]).signal_instance_id_spec()
                        != id,
                None => forall|k: int|
                    0 <= k < self.values_in_range@.len() ==> (
                    #[trigger] self.values_in_range@[k]).signal_instance_id_spec() != id,
            },
    {
        let n = self.values_in_range.len();
        let mut i: usize = 0;
        while i < n
            invariant
                n == self.values_in_range@.len(),
                i <= n,
                forall|k: int|
                    0 <= k < i ==> (#[trigger] self.values_in_range@[k]).signal_instance_id_spec()
                        != id,
            decreases n - i,
        {
            if self.values_in_range[i].get_signal_instance_id().0 == id.0 {
                return Some(i);
            }
            i = i + 1;
        }
        None
    }
}

/// The notifications the engine emits to a client, in emission order over an
/// ordered reliable channel.
pub enum SimulationUpdate {
    SimulationStarted,
    SimulationPaused,
    SimulationResumed,
    SimulationStopped,
    DesignHierarchy(DesignHierarchy),
    SignalValuesInRange(SignalValuesInRange),
    NewSimulationTime(LogicalTime),
}

/// The engine-to-client protocol envelope: every message is addressed to one
/// simulation, so a single transport can multiplex several concurrent
/// simulations.
pub struct Envelope {
    pub simulation_id: crate::SimulationId,
    pub message: SimulationUpdate,
}

impl Envelope {
    /// Addresses one notification to one simulation.
    pub fn new(simulation_id: crate::SimulationId, message: SimulationUpdate) -> (r: Envelope)
        ensures
            r.simulation_id == simulation_id,
            r.message == message,
    {
        Envelope { simulation_id, message }
    }
}

} // verus!
