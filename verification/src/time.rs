//! The logical time domain of the simulation protocol.
//!
//! A [`PhysicalTime`] counts elapsed simulation time (femtoseconds); a
//! [`Delta`] counts zero-physical-time iterations of the event-driven
//! scheduler within one instant; a [`LogicalTime`] pairs the two and is
//! ordered lexicographically, physical component first. Every event in the
//! protocol is timestamped with a `LogicalTime`, and incremental updates are
//! windowed by half-open `[start, end)` ranges of it.

use vstd::prelude::*;
use core::cmp::Ordering;

verus! {

/// Unsigned count of elapsed simulation time, in an implementation-defined
/// unit such as femtoseconds. Totally ordered; subtraction saturates at zero,
/// the other arithmetic operations are exact.
#[derive(Clone, Copy, PartialEq, Eq, Structural, Hash, Debug, PartialOrd, Ord)]
pub struct PhysicalTime(pub u64);

impl PhysicalTime {
    /// The zero point of the time axis.
    pub fn zero() -> (r: Self)
        ensures
            r.0 == 0,
    {
        PhysicalTime(0)
    }

    /// The least representable physical time (equal to zero).
    pub fn min_value() -> (r: Self)
        ensures
            r.0 == 0,
    {
        PhysicalTime(0)
    }

    /// The greatest representable physical time.
    pub fn max_value() -> (r: Self)
        ensures
            r.0 == u64::MAX,
    {
        PhysicalTime(u64::MAX)
    }

    /// The canonical empty half-open span `[0, 0)`.
    pub fn empty_time_span() -> (r: core::ops::Range<PhysicalTime>)
        ensures
            r.start.0 == 0,
            r.end.0 == 0,
    {
        PhysicalTime(0)..PhysicalTime(0)
    }

    /// What subtraction of physical times yields: the difference where it
    /// exists, and zero where the subtrahend is the larger.
    pub open spec fn saturating_sub_spec(self, rhs: Self) -> Self {
        if self.0 >= rhs.0 {
            PhysicalTime((self.0 - rhs.0) as u64)
        } else {
            PhysicalTime(0)
        }
    }
}

/// Subtraction of physical times never underflows: where the subtrahend is
/// the larger, the result saturates to [`PhysicalTime`] zero.
pub proof fn lemma_physical_sub_saturates(a: PhysicalTime, b: PhysicalTime)
    ensures
        a.saturating_sub_spec(b).0 == if a.0 >= b.0 {
            (a.0 - b.0) as u64
        } else {
            0u64
        },
        a.0 < b.0 ==> a.saturating_sub_spec(b) == PhysicalTime(0),
{
}

impl core::ops::Sub for PhysicalTime {
    type Output = PhysicalTime;

    fn sub(self, rhs: Self) -> (r: Self)
    {
        PhysicalTime(self.0.saturating_sub(rhs.0))
    }
}

impl vstd::std_specs::ops::SubSpecImpl for PhysicalTime {
    open spec fn obeys_sub_spec() -> bool {
        true
    }

    open spec fn sub_req(self, rhs: Self) -> bool {
        true
    }

    open spec fn sub_spec(self, rhs: Self) -> Self {
        self.saturating_sub_spec(rhs)
    }
}

impl core::ops::Add for PhysicalTime {
    type Output = PhysicalTime;

    fn add(self, rhs: Self) -> (r: Self)
    {
        PhysicalTime(self.0 + rhs.0)
    }
}

impl vstd::std_specs::ops::AddSpecImpl for PhysicalTime {
    open spec fn obeys_add_spec() -> bool {
        true
    }

    open spec fn add_req(self, rhs: Self) -> bool {
        self.0 + rhs.0 <= u64::MAX
    }

    open spec fn add_spec(self, rhs: Self) -> Self {
        PhysicalTime((self.0 + rhs.0) as u64)
    }
}

impl PhysicalTime {
    /// In-place exact addition of a span of physical time.
    pub fn add_assign(&mut self, rhs: Self)
        requires
            old(self).0 + rhs.0 <= u64::MAX,
        ensures
            final(self).0 == old(self).0 + rhs.0,
    {
        self.0 = self.0 + rhs.0;
    }
}

impl core::ops::Mul<u64> for PhysicalTime {
    type Output = PhysicalTime;

    fn mul(self, rhs: u64) -> (r: Self)
    {
        PhysicalTime(self.0 * rhs)
    }
}

impl vstd::std_specs::ops::MulSpecImpl<u64> for PhysicalTime {
    open spec fn obeys_mul_spec() -> bool {
        true
    }

    open spec fn mul_req(self, rhs: u64) -> bool {
        self.0 * rhs <= u64::MAX
    }

    open spec fn mul_spec(self, rhs: u64) -> Self {
        PhysicalTime((self.0 * rhs) as u64)
    }
}

impl core::ops::Mul for PhysicalTime {
    type Output = PhysicalTime;

    fn mul(self, rhs: Self) -> (r: Self)
    {
        PhysicalTime(self.0 * rhs.0)
    }
}

impl vstd::std_specs::ops::MulSpecImpl for PhysicalTime {
    open spec fn obeys_mul_spec() -> bool {
        true
    }

    open spec fn mul_req(self, rhs: Self) -> bool {
        self.0 * rhs.0 <= u64::MAX
    }

    open spec fn mul_spec(self, rhs: Self) -> Self {
        PhysicalTime((self.0 * rhs.0) as u64)
    }
}

impl core::ops::Div<u64> for PhysicalTime {
    type Output = PhysicalTime;

    fn div(self, rhs: u64) -> (r: Self)
    {
        PhysicalTime(self.0 / rhs)
    }
}

impl vstd::std_specs::ops::DivSpecImpl<u64> for PhysicalTime {
    open spec fn obeys_div_spec() -> bool {
        true
    }

    open spec fn div_req(self, rhs: u64) -> bool {
        rhs != 0
    }

    open spec fn div_spec(self, rhs: u64) -> Self {
        PhysicalTime((self.0 / rhs) as u64)
    }
}

impl core::ops::Div for PhysicalTime {
    type Output = PhysicalTime;

    fn div(self, rhs: Self) -> (r: Self)
    {
        PhysicalTime(self.0 / rhs.0)
    }
}

impl vstd::std_specs::ops::DivSpecImpl for PhysicalTime {
    open spec fn obeys_div_spec() -> bool {
        true
    }

    open spec fn div_req(self, rhs: Self) -> bool {
        rhs.0 != 0
    }

    open spec fn div_spec(self, rhs: Self) -> Self {
        PhysicalTime((self.0 / rhs.0) as u64)
    }
}

impl core::ops::Rem for PhysicalTime {
    type Output = PhysicalTime;

    fn rem(self, rhs: Self) -> (r: Self)
    {
        PhysicalTime(self.0 % rhs.0)
    }
}

impl vstd::std_specs::ops::RemSpecImpl for PhysicalTime {
    open spec fn obeys_rem_spec() -> bool {
        true
    }

    open spec fn rem_req(self, rhs: Self) -> bool {
        rhs.0 != 0
    }

    open spec fn rem_spec(self, rhs: Self) -> Self {
        PhysicalTime((self.0 % rhs.0) as u64)
    }
}

impl core::convert::From<u64> for PhysicalTime {
    fn from(value: u64) -> (r: Self) {
        PhysicalTime(value)
    }
}

impl vstd::std_specs::convert::FromSpecImpl<u64> for PhysicalTime {
    open spec fn obeys_from_spec() -> bool {
        true
    }

    open spec fn from_spec(value: u64) -> Self {
        PhysicalTime(value)
    }
}

impl Default for PhysicalTime {
    /// The default physical time is zero.
    fn default() -> (r: Self)
        ensures
            r.0 == 0,
    {
        PhysicalTime(0)
    }
}

/// Count of delta cycles: causally-ordered iterations of the scheduler within
/// a single physical instant. Same arithmetic surface as [`PhysicalTime`],
/// except that subtraction is exact and demands a subtrahend no larger than
/// the minuend.
#[derive(Clone, Copy, PartialEq, Eq, Structural, Hash, Debug, PartialOrd, Ord)]
pub struct Delta(pub u64);

impl Delta {
    /// The first delta cycle of an instant.
    pub fn zero() -> (r: Self)
        ensures
            r.0 == 0,
    {
        Delta(0)
    }

    /// The greatest representable delta count.
    pub fn max_value() -> (r: Self)
        ensures
            r.0 == u64::MAX,
    {
        Delta(u64::MAX)
    }
}

impl core::ops::Add for Delta {
    type Output = Delta;

    fn add(self, rhs: Self) -> (r: Self)
    {
        Delta(self.0 + rhs.0)
    }
}

impl vstd::std_specs::ops::AddSpecImpl for Delta {
    open spec fn obeys_add_spec() -> bool {
        true
    }

    open spec fn add_req(self, rhs: Self) -> bool {
        self.0 + rhs.0 <= u64::MAX
    }

    open spec fn add_spec(self, rhs: Self) -> Self {
        Delta((self.0 + rhs.0) as u64)
    }
}

impl core::ops::Sub for Delta {
    type Output = Delta;

    fn sub(self, rhs: Self) -> (r: Self)
    {
        Delta(self.0 - rhs.0)
    }
}

impl vstd::std_specs::ops::SubSpecImpl for Delta {
    open spec fn obeys_sub_spec() -> bool {
        true
    }

    open spec fn sub_req(self, rhs: Self) -> bool {
        rhs.0 <= self.0
    }

    open spec fn sub_spec(self, rhs: Self) -> Self {
        Delta((self.0 - rhs.0) as u64)
    }
}

impl core::ops::Mul<u64> for Delta {
    type Output = Delta;

    fn mul(self, rhs: u64) -> (r: Self)
    {
        Delta(self.0 * rhs)
    }
}

impl vstd::std_specs::ops::MulSpecImpl<u64> for Delta {
    open spec fn obeys_mul_spec() -> bool {
        true
    }

    open spec fn mul_req(self, rhs: u64) -> bool {
        self.0 * rhs <= u64::MAX
    }

    open spec fn mul_spec(self, rhs: u64) -> Self {
        Delta((self.0 * rhs) as u64)
    }
}

impl core::ops::Div for Delta {
    type Output = Delta;

    fn div(self, rhs: Self) -> (r: Self)
    {
        Delta(self.0 / rhs.0)
    }
}

impl vstd::std_specs::ops::DivSpecImpl for Delta {
    open spec fn obeys_div_spec() -> bool {
        true
    }

    open spec fn div_req(self, rhs: Self) -> bool {
        rhs.0 != 0
    }

    open spec fn div_spec(self, rhs: Self) -> Self {
        Delta((self.0 / rhs.0) as u64)
    }
}

impl core::convert::From<u64> for Delta {
    fn from(value: u64) -> (r: Self) {
        Delta(value)
    }
}

impl vstd::std_specs::convert::FromSpecImpl<u64> for Delta {
    open spec fn obeys_from_spec() -> bool {
        true
    }

    open spec fn from_spec(value: u64) -> Self {
        Delta(value)
    }
}

impl Default for Delta {
    /// The default delta count is zero.
    fn default() -> (r: Self)
        ensures
            r.0 == 0,
    {
        Delta(0)
    }
}

/// The canonical timestamp of the protocol: a physical instant together with
/// the delta cycle inside it. Ordered lexicographically, physical component
/// first, so that causally-ordered updates at one physical instant remain
/// distinguishable.
#[derive(Clone, Copy, PartialEq, Eq, Structural, Hash, Debug)]
pub struct LogicalTime {
    pub physical: PhysicalTime,
    pub delta: Delta,
}

impl LogicalTime {
    /// Pairs a physical time with a delta count.
    pub fn new(physical: PhysicalTime, delta: Delta) -> (r: Self)
        ensures
            r.physical == physical,
            r.delta == delta,
    {
        LogicalTime { physical, delta }
    }

    /// The origin of logical time: physical zero, delta zero.
    pub fn zero() -> (r: Self)
        ensures
            r.physical.0 == 0,
            r.delta.0 == 0,
    {
        LogicalTime { physical: PhysicalTime(0), delta: Delta(0) }
    }

    /// The least logical time (equal to zero).
    pub fn min_value() -> (r: Self)
        ensures
            r.physical.0 == 0,
            r.delta.0 == 0,
    {
        LogicalTime { physical: PhysicalTime(0), delta: Delta(0) }
    }

    /// The greatest representable logical time.
    pub fn max_value() -> (r: Self)
        ensures
            r.physical.0 == u64::MAX,
            r.delta.0 == u64::MAX,
    {
        LogicalTime { physical: PhysicalTime(u64::MAX), delta: Delta(u64::MAX) }
    }

    /// The lexicographic comparison of two logical times: physical component
    /// first, tie-broken by the delta component.
    pub open spec fn cmp_spec(self, other: Self) -> Ordering {
        if self.physical.0 < other.physical.0 {
            Ordering::Less
        } else if self.physical.0 > other.physical.0 {
            Ordering::Greater
        } else if self.delta.0 < other.delta.0 {
            Ordering::Less
        } else if self.delta.0 > other.delta.0 {
            Ordering::Greater
        } else {
            Ordering::Equal
        }
    }

    /// `self` comes no later than `other` in the lexicographic order.
    pub open spec fn le_spec(self, other: Self) -> bool {
        self.physical.0 < other.physical.0 || (self.physical.0 == other.physical.0
            && self.delta.0 <= other.delta.0)
    }

    /// `self` comes strictly before `other` in the lexicographic order.
    pub open spec fn lt_spec(self, other: Self) -> bool {
        self.le_spec(other) && self != other
    }

    /// Whether `self` equals the given bare physical time taken at delta zero.
    pub fn eq_physical(&self, other: &PhysicalTime) -> (r: bool)
        ensures
            r == (self.physical.0 == other.0 && self.delta.0 == 0),
    {
        self.physical.0 == other.0 && self.delta.0 == 0
    }

    /// Compares `self` against a bare physical time taken at delta zero.
    pub fn cmp_physical(&self, other: &PhysicalTime) -> (r: Ordering)
        ensures
            r == self.cmp_spec(LogicalTime { physical: *other, delta: Delta(0) }),
    {
        if self.physical.0 < other.0 {
            Ordering::Less
        } else if self.physical.0 > other.0 {
            Ordering::Greater
        } else if self.delta.0 > 0 {
            Ordering::Greater
        } else {
            Ordering::Equal
        }
    }
}

impl PartialOrd for LogicalTime {
    fn partial_cmp(&self, other: &Self) -> (r: Option<Ordering>) {
        if self.physical.0 < other.physical.0 {
            Some(Ordering::Less)
        } else if self.physical.0 > other.physical.0 {
            Some(Ordering::Greater)
        } else if self.delta.0 < other.delta.0 {
            Some(Ordering::Less)
        } else if self.delta.0 > other.delta.0 {
            Some(Ordering::Greater)
        } else {
            Some(Ordering::Equal)
        }
    }
}

impl vstd::std_specs::cmp::PartialOrdSpecImpl for LogicalTime {
    open spec fn obeys_partial_cmp_spec() -> bool {
        true
    }

    open spec fn partial_cmp_spec(&self, other: &Self) -> Option<Ordering> {
        Some(self.cmp_spec(*other))
    }
}

impl core::ops::Add<Delta> for LogicalTime {
    type Output = LogicalTime;

    fn add(self, rhs: Delta) -> (r: Self)
    {
        LogicalTime { physical: self.physical, delta: self.delta + rhs }
    }
}

impl vstd::std_specs::ops::AddSpecImpl<Delta> for LogicalTime {
    open spec fn obeys_add_spec() -> bool {
        true
    }

    open spec fn add_req(self, rhs: Delta) -> bool {
        self.delta.0 + rhs.0 <= u64::MAX
    }

    open spec fn add_spec(self, rhs: Delta) -> Self {
        LogicalTime { physical: self.physical, delta: Delta((self.delta.0 + rhs.0) as u64) }
    }
}

impl core::convert::From<PhysicalTime> for LogicalTime {
    fn from(time: PhysicalTime) -> (r: Self) {
        LogicalTime { physical: time, delta: Delta(0) }
    }
}

impl vstd::std_specs::convert::FromSpecImpl<PhysicalTime> for LogicalTime {
    open spec fn obeys_from_spec() -> bool {
        true
    }

    open spec fn from_spec(time: PhysicalTime) -> Self {
        LogicalTime { physical: time, delta: Delta(0) }
    }
}

impl core::convert::From<u64> for LogicalTime {
    fn from(time: u64) -> (r: Self) {
        LogicalTime { physical: PhysicalTime(time), delta: Delta(0) }
    }
}

impl vstd::std_specs::convert::FromSpecImpl<u64> for LogicalTime {
    open spec fn obeys_from_spec() -> bool {
        true
    }

    open spec fn from_spec(time: u64) -> Self {
        LogicalTime { physical: PhysicalTime(time), delta: Delta(0) }
    }
}

impl core::convert::From<(u64, u64)> for LogicalTime {
    fn from(pair: (u64, u64)) -> (r: Self) {
        LogicalTime { physical: PhysicalTime(pair.0), delta: Delta(pair.1) }
    }
}

impl vstd::std_specs::convert::FromSpecImpl<(u64, u64)> for LogicalTime {
    open spec fn obeys_from_spec() -> bool {
        true
    }

    open spec fn from_spec(pair: (u64, u64)) -> Self {
        LogicalTime { physical: PhysicalTime(pair.0), delta: Delta(pair.1) }
    }
}

impl Default for LogicalTime {
    /// The default logical time is the origin.
    fn default() -> (r: Self)
        ensures
            r.physical.0 == 0,
            r.delta.0 == 0,
    {
        LogicalTime { physical: PhysicalTime(0), delta: Delta(0) }
    }
}

/// The order on logical times is exactly the lexicographic order on the pair
/// `(physical, delta)`, and it is total: reflexive, antisymmetric, transitive
/// and complete.
pub proof fn lemma_logical_time_order_lexicographic(a: LogicalTime, b: LogicalTime, c: LogicalTime)
    ensures
        a.le_spec(b) <==> (a.physical.0 < b.physical.0 || (a.physical.0 == b.physical.0
            && a.delta.0 <= b.delta.0)),
        a.le_spec(b) <==> (a.cmp_spec(b) == Ordering::Less || a.cmp_spec(b) == Ordering::Equal),
        a.le_spec(a),
        a.le_spec(b) && b.le_spec(a) ==> a == b,
        a.le_spec(b) && b.le_spec(c) ==> a.le_spec(c),
        a.le_spec(b) || b.le_spec(a),
{
}

/// Lifting a bare physical time into logical time lands at delta zero: it
/// agrees with lifting the pair `(x, 0)`.
pub proof fn lemma_from_physical_is_pair_at_delta_zero(x: u64)
    ensures
        <LogicalTime as vstd::std_specs::convert::FromSpec<PhysicalTime>>::from_spec(
            PhysicalTime(x),
        ) == <LogicalTime as vstd::std_specs::convert::FromSpec<(u64, u64)>>::from_spec(
            (x, 0u64),
        ),
{
}

} // verus!
