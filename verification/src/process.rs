//! The process model: identifiers, priorities and the record the scheduler
//! manipulates.
//!
//! A [`ProcessData`] bundles what the scheduler needs to order a process —
//! its identifier, its priority and the virtual runtime it has consumed —
//! with an arbitrary payload `P` standing for the work itself (an actor or a
//! future, owned by the worker that runs it). Records run in the order given
//! by [`runs_before`]: least virtual runtime first, higher priority breaking
//! ties, the identifier breaking what is left.

use vstd::prelude::*;

use crate::time::Duration;

verus! {

/// An opaque identifier of a scheduled process.
///
/// Unique within one scheduler instance for the life of the process record;
/// reuse after removal is permitted.
#[derive(Clone, Copy, PartialEq, Eq, Structural, Debug, Hash)]
pub struct ProcessId(pub u32);

/// The priority of a process.
///
/// Higher priorities accumulate virtual runtime more slowly and therefore
/// receive a proportionally larger share of processor time.
#[derive(Clone, Copy, PartialEq, Eq, Structural, Debug, Hash)]
pub enum Priority {
    /// Low priority: a quarter of the share of a high-priority process.
    Low,
    /// The default priority.
    Normal,
    /// High priority.
    High,
}

impl Priority {
    /// Low priority, named as a constant for callers of the spawn options.
    pub const LOW: Priority = Priority::Low;

    /// Normal priority, the default.
    pub const NORMAL: Priority = Priority::Normal;

    /// High priority.
    pub const HIGH: Priority = Priority::High;

    /// Rank in the run order: at equal virtual runtime, greater rank runs
    /// first.
    pub open spec fn rank(self) -> int {
        match self {
            Priority::Low => 0,
            Priority::Normal => 1,
            Priority::High => 2,
        }
    }

    /// The factor by which consumed wall time is weighted before it is added
    /// to a process' virtual runtime: 1 for high, 2 for normal, 4 for low.
    pub open spec fn spec_weight(self) -> u32 {
        match self {
            Priority::Low => 4,
            Priority::Normal => 2,
            Priority::High => 1,
        }
    }

    /// The factor by which consumed wall time is weighted, see
    /// [`Priority::spec_weight`].
    pub fn weight(&self) -> (w: u32)
        ensures
            w == self.spec_weight(),
    {
        match self {
            Priority::Low => 4,
            Priority::Normal => 2,
            Priority::High => 1,
        }
    }
}

impl Default for Priority {
    /// The default priority is [`Priority::NORMAL`].
    fn default() -> (r: Priority)
        ensures
            r == Priority::Normal,
    {
        Priority::Normal
    }
}

/// The unit the scheduler manipulates: one process with its ordering data.
#[derive(Debug)]
pub struct ProcessData<P> {
    /// Virtual runtime this process has consumed so far.
    pub fair_runtime: Duration,
    /// The work itself; the scheduler only carries it.
    pub payload: P,
    /// The process' identifier.
    pub pid: ProcessId,
    /// The process' priority.
    pub priority: Priority,
}

/// Strict run order on process records: `a` runs before `b`.
///
/// Least virtual runtime first; at equal virtual runtime the higher priority
/// first; the lower process id breaks remaining ties, so records with
/// distinct ids are totally ordered.
pub open spec fn runs_before<P>(a: ProcessData<P>, b: ProcessData<P>) -> bool {
    ||| a.fair_runtime.spec_as_nanos() < b.fair_runtime.spec_as_nanos()
    ||| (a.fair_runtime.spec_as_nanos() == b.fair_runtime.spec_as_nanos()
        && a.priority.rank() > b.priority.rank())
    ||| (a.fair_runtime.spec_as_nanos() == b.fair_runtime.spec_as_nanos()
        && a.priority.rank() == b.priority.rank() && a.pid.0 < b.pid.0)
}

/// The run order is transitive.
pub proof fn lemma_runs_before_trans<P>(a: ProcessData<P>, b: ProcessData<P>, c: ProcessData<P>)
    requires
        runs_before(a, b),
        runs_before(b, c),
    ensures
        runs_before(a, c),
{
}

/// Law: at equal virtual runtime, priority decides — the higher-priority
/// record runs first. Three processes admitted together therefore run
/// high, normal, low.
pub proof fn lemma_priority_orders_equal_runtime<P>(a: ProcessData<P>, b: ProcessData<P>)
    requires
        a.fair_runtime.spec_as_nanos() == b.fair_runtime.spec_as_nanos(),
        a.priority.rank() > b.priority.rank(),
    ensures
        runs_before(a, b),
        !runs_before(b, a),
{
}

/// Records with distinct identifiers are comparable: one of the two runs
/// first.
pub proof fn lemma_runs_before_total<P>(a: ProcessData<P>, b: ProcessData<P>)
    requires
        a.pid.0 != b.pid.0,
    ensures
        runs_before(a, b) || runs_before(b, a),
        !(runs_before(a, b) && runs_before(b, a)),
{
}

impl<P> ProcessData<P> {
    /// The record's well-formedness: its virtual runtime is a well-formed
    /// duration.
    pub open spec fn is_valid(self) -> bool {
        self.fair_runtime.is_valid()
    }

    /// The record's identifier.
    pub open spec fn spec_id(self) -> ProcessId {
        self.pid
    }

    /// The record's priority.
    pub open spec fn spec_priority(self) -> Priority {
        self.priority
    }

    /// The record's virtual runtime.
    pub open spec fn spec_fair_runtime(self) -> Duration {
        self.fair_runtime
    }

    /// The record's payload.
    pub open spec fn spec_payload(self) -> P {
        self.payload
    }

    /// Create a new process record.
    pub fn new(pid: ProcessId, priority: Priority, fair_runtime: Duration, payload: P) -> (r:
        ProcessData<P>)
        requires
            fair_runtime.is_valid(),
        ensures
            r.spec_id() == pid,
            r.spec_priority() == priority,
            r.spec_fair_runtime() == fair_runtime,
            r.spec_payload() == payload,
            r.is_valid(),
    {
        ProcessData { fair_runtime, payload, pid, priority }
    }

    /// The process' identifier.
    pub fn id(&self) -> (r: ProcessId)
        ensures
            r == self.spec_id(),
    {
        self.pid
    }

    /// The process' priority.
    pub fn priority(&self) -> (r: Priority)
        ensures
            r == self.spec_priority(),
    {
        self.priority
    }

    /// The virtual runtime the process has consumed so far.
    pub fn fair_runtime(&self) -> (r: Duration)
        ensures
            r == self.spec_fair_runtime(),
    {
        self.fair_runtime
    }

    /// Borrow the payload.
    pub fn payload(&self) -> (r: &P)
        ensures
            *r == self.spec_payload(),
    {
        &self.payload
    }

    /// Borrow the payload mutably; only the payload can change through it.
    pub fn payload_mut(&mut self) -> (r: &mut P)
        ensures
            *r == old(self).spec_payload(),
            final(self).spec_id() == old(self).spec_id(),
            final(self).spec_priority() == old(self).spec_priority(),
            final(self).spec_fair_runtime() == old(self).spec_fair_runtime(),
            final(self).spec_payload() == *final(r),
    {
        &mut self.payload
    }

    /// Take the record apart, handing the payload out.
    pub fn into_payload(self) -> (r: P)
        ensures
            r == self.spec_payload(),
    {
        self.payload
    }

    /// Account a poll that took `elapsed` wall time: the virtual runtime
    /// grows by `elapsed` weighted by the priority, saturating at the
    /// largest representable duration.
    pub fn update_fair_runtime(&mut self, elapsed: &Duration)
        requires
            old(self).is_valid(),
            elapsed.is_valid(),
        ensures
            final(self).spec_id() == old(self).spec_id(),
            final(self).spec_priority() == old(self).spec_priority(),
            final(self).spec_payload() == old(self).spec_payload(),
            final(self).is_valid(),
            final(self).spec_fair_runtime().spec_as_nanos() == spec_min_int(
                old(self).spec_fair_runtime().spec_as_nanos() + elapsed.spec_as_nanos()
                    * old(self).spec_priority().spec_weight(),
                Duration::spec_max().spec_as_nanos(),
            ),
    {
        let weighted = elapsed.saturating_mul_small(self.priority.weight());
        match self.fair_runtime.checked_add(&weighted) {
            Some(sum) => {
                self.fair_runtime = sum;
            },
            None => {
                self.fair_runtime = Duration::max_value();
            },
        }
    }
}

/// The smaller of two mathematical integers.
pub open spec fn spec_min_int(a: int, b: int) -> int {
    if a <= b {
        a
    } else {
        b
    }
}

/// Whether `self` runs before `other`, see [`runs_before`].
impl<P> ProcessData<P> {
    pub fn runs_before_exec(&self, other: &ProcessData<P>) -> (r: bool)
        requires
            self.is_valid(),
            other.is_valid(),
        ensures
            r == runs_before(*self, *other),
    {
        if !self.fair_runtime.le(&other.fair_runtime) {
            false
        } else if !other.fair_runtime.le(&self.fair_runtime) {
            true
        } else {
            let own_rank: u8 = match self.priority {
                Priority::Low => 0,
                Priority::Normal => 1,
                Priority::High => 2,
            };
            let other_rank: u8 = match other.priority {
                Priority::Low => 0,
                Priority::Normal => 1,
                Priority::High => 2,
            };
            if own_rank != other_rank {
                own_rank > other_rank
            } else {
                self.pid.0 < other.pid.0
            }
        }
    }
}

impl<P> PartialEq for ProcessData<P> {
    /// Two records are equal when their ordering data agree; the payload
    /// does not take part.
    fn eq(&self, other: &Self) -> (r: bool) {
        self.pid == other.pid && self.priority == other.priority && self.fair_runtime
            == other.fair_runtime
    }
}

impl<P> vstd::std_specs::cmp::PartialEqSpecImpl for ProcessData<P> {
    open spec fn obeys_eq_spec() -> bool {
        true
    }

    open spec fn eq_spec(&self, other: &Self) -> bool {
        self.pid == other.pid && self.priority == other.priority && self.fair_runtime
            == other.fair_runtime
    }
}

impl<P> PartialOrd for ProcessData<P> {
    /// A record compares greater when it runs earlier, so popping the
    /// maximum yields the next process to run.
    fn partial_cmp(&self, other: &Self) -> (r: Option<core::cmp::Ordering>) {
        if self.pid == other.pid && self.priority == other.priority && self.fair_runtime
            == other.fair_runtime {
            Some(core::cmp::Ordering::Equal)
        } else {
            let fair_eq = self.fair_runtime.secs == other.fair_runtime.secs
                && self.fair_runtime.nanos == other.fair_runtime.nanos;
            let fair_lt = self.fair_runtime.secs < other.fair_runtime.secs
                || (self.fair_runtime.secs == other.fair_runtime.secs && self.fair_runtime.nanos
                < other.fair_runtime.nanos);
            let earlier = if fair_lt {
                true
            } else if !fair_eq {
                false
            } else {
                let own_rank = self.priority.weight();
                let other_rank = other.priority.weight();
                if own_rank != other_rank {
                    // A smaller weight means a higher priority.
                    own_rank < other_rank
                } else {
                    self.pid.0 < other.pid.0
                }
            };
            if earlier {
                Some(core::cmp::Ordering::Greater)
            } else {
                Some(core::cmp::Ordering::Less)
            }
        }
    }
}

impl<P> vstd::std_specs::cmp::PartialOrdSpecImpl for ProcessData<P> {
    open spec fn obeys_partial_cmp_spec() -> bool {
        false
    }

    open spec fn partial_cmp_spec(&self, other: &Self) -> Option<core::cmp::Ordering> {
        if self.pid == other.pid && self.priority == other.priority && self.fair_runtime
            == other.fair_runtime {
            Some(core::cmp::Ordering::Equal)
        } else if runs_before(*self, *other) {
            Some(core::cmp::Ordering::Greater)
        } else {
            Some(core::cmp::Ordering::Less)
        }
    }
}

} // verus!
