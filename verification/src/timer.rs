//! Time-based futures: a bare [`Timer`], a [`Deadline`] wrapping another
//! future, and an [`Interval`] yielding periodically.
//!
//! Each of these registers its deadline with the worker's [`Timers`] when it
//! is created, so the worker wakes the owning process once the deadline has
//! passed. What each one resolves to is decided here, against an explicit
//! reading of the clock: polling is `poll_at(now)`, and the thin layer that
//! drives these types inside the task system supplies `now`.

use vstd::prelude::*;

use crate::process::ProcessId;
use crate::time::{now, Duration, Instant};
use crate::timers::Timers;

verus! {

/// Type returned when a deadline has passed.
#[derive(Clone, Copy, PartialEq, Eq, Structural, Debug, Hash)]
pub struct DeadlinePassed;

/// The timer store gained exactly one entry, `(deadline, pid)`, in order.
pub open spec fn gained_deadline(
    before: Seq<(Instant, ProcessId)>,
    after: Seq<(Instant, ProcessId)>,
    deadline: Instant,
    pid: ProcessId,
) -> bool {
    exists|i: int| 0 <= i <= before.len() && after == #[trigger] before.insert(i, (deadline, pid))
}

/// A future that resolves to [`DeadlinePassed`] once its deadline has
/// passed, and is pending before that.
#[derive(Clone, Copy, PartialEq, Eq, Structural, Debug)]
pub struct Timer {
    /// When this timer fires.
    deadline: Instant,
}

impl Timer {
    /// The instant this timer fires at.
    pub closed spec fn spec_deadline(self) -> Instant {
        self.deadline
    }

    /// Create a new timer for the process with id `pid`, firing at
    /// `deadline`; the deadline is registered so the process is woken once
    /// it has passed.
    pub fn new(timers: &mut Timers, pid: ProcessId, deadline: Instant) -> (t: Timer)
        requires
            old(timers).wf(),
        ensures
            final(timers).wf(),
            t.spec_deadline() == deadline,
            gained_deadline(old(timers).model(), final(timers).model(), deadline, pid),
    {
        timers.add_deadline(pid, deadline);
        Timer { deadline }
    }

    /// Create a new timer firing once `timeout` has elapsed from the
    /// instant `at`: the deadline is exactly `at` plus `timeout`
    /// (saturating), and it is registered as with [`Timer::new`].
    pub fn timeout_at(timers: &mut Timers, pid: ProcessId, at: Instant, timeout: Duration) -> (t:
        Timer)
        requires
            old(timers).wf(),
            timeout.is_valid(),
        ensures
            final(timers).wf(),
            t.spec_deadline() == at.spec_saturating_add(timeout),
            gained_deadline(old(timers).model(), final(timers).model(), t.spec_deadline(), pid),
    {
        let deadline = at.saturating_add(&timeout);
        Timer::new(timers, pid, deadline)
    }

    /// Create a new timer firing once `timeout` has elapsed from now.
    ///
    /// The clock is read here, so which deadline comes out cannot be pinned
    /// to the arguments; whatever the reading `at` was, the timer is the one
    /// [`Timer::timeout_at`] gives for `at`, with its deadline registered.
    pub fn timeout(timers: &mut Timers, pid: ProcessId, timeout: Duration) -> (t: Timer)
        requires
            old(timers).wf(),
            timeout.is_valid(),
        ensures
            final(timers).wf(),
            exists|at: Instant| t.spec_deadline() == #[trigger] at.spec_saturating_add(timeout),
            gained_deadline(old(timers).model(), final(timers).model(), t.spec_deadline(), pid),
    {
        let at = now();
        Timer::timeout_at(timers, pid, at, timeout)
    }

    /// Returns the deadline set for this timer.
    pub fn deadline(&self) -> (d: Instant)
        ensures
            d == self.spec_deadline(),
    {
        self.deadline
    }

    /// Whether the deadline has passed at the instant `now`.
    pub fn has_passed_at(&self, at: &Instant) -> (r: bool)
        ensures
            r == (self.spec_deadline().nanos <= at.nanos),
    {
        self.deadline.le(at)
    }

    /// Whether the deadline has passed, against a fresh clock reading.
    pub fn has_passed(&self) -> (r: bool) {
        let at = now();
        self.has_passed_at(&at)
    }

    /// One poll of this timer at the instant `now`: ready with
    /// [`DeadlinePassed`] exactly when the deadline has passed, pending
    /// otherwise.
    pub fn poll_at(&self, at: &Instant) -> (r: Option<DeadlinePassed>)
        ensures
            r is Some <==> self.spec_deadline().nanos <= at.nanos,
    {
        if self.has_passed_at(at) {
            Some(DeadlinePassed)
        } else {
            None
        }
    }

    /// Wrap a future, creating a [`Deadline`] with this timer's deadline.
    ///
    /// The deadline was registered when the timer was created, so nothing
    /// more is registered here.
    pub fn wrap<F>(self, future: F) -> (d: Deadline<F>)
        ensures
            d.spec_deadline() == self.spec_deadline(),
            d.spec_future() == future,
    {
        Deadline { deadline: self.deadline, future }
    }

    /// Rebind this timer to the process with id `pid`, registering a fresh
    /// deadline at the same instant; the stale entry fires harmlessly.
    pub fn bind_to(&mut self, timers: &mut Timers, pid: ProcessId)
        requires
            old(timers).wf(),
        ensures
            final(timers).wf(),
            *final(self) == *old(self),
            gained_deadline(
                old(timers).model(),
                final(timers).model(),
                old(self).spec_deadline(),
                pid,
            ),
    {
        timers.add_deadline(pid, self.deadline);
    }
}

/// A future wrapping another, with a deadline set for it.
///
/// While the deadline has not passed a poll falls through to the wrapped
/// future; once it has passed, a poll short-circuits with
/// [`DeadlinePassed`] and the wrapped future is not consulted again.
#[derive(Debug)]
pub struct Deadline<F> {
    /// When the wrapped future is cut off.
    deadline: Instant,
    /// The wrapped future.
    future: F,
}

impl<F> Deadline<F> {
    /// The instant the wrapped future is cut off at.
    pub closed spec fn spec_deadline(self) -> Instant {
        self.deadline
    }

    /// The wrapped future.
    pub closed spec fn spec_future(self) -> F {
        self.future
    }

    /// Wrap `future` with the deadline `deadline` for the process with id
    /// `pid`; the deadline is registered so the process is woken once it has
    /// passed.
    pub fn new(timers: &mut Timers, pid: ProcessId, deadline: Instant, future: F) -> (d: Deadline<F>)
        requires
            old(timers).wf(),
        ensures
            final(timers).wf(),
            d.spec_deadline() == deadline,
            d.spec_future() == future,
            gained_deadline(old(timers).model(), final(timers).model(), deadline, pid),
    {
        timers.add_deadline(pid, deadline);
        Deadline { deadline, future }
    }

    /// Wrap `future`, cutting it off once `timeout` has elapsed from the
    /// instant `at`: the deadline is exactly `at` plus `timeout`
    /// (saturating).
    pub fn timeout_at(
        timers: &mut Timers,
        pid: ProcessId,
        at: Instant,
        timeout: Duration,
        future: F,
    ) -> (d: Deadline<F>)
        requires
            old(timers).wf(),
            timeout.is_valid(),
        ensures
            final(timers).wf(),
            d.spec_deadline() == at.spec_saturating_add(timeout),
            d.spec_future() == future,
            gained_deadline(old(timers).model(), final(timers).model(), d.spec_deadline(), pid),
    {
        let deadline = at.saturating_add(&timeout);
        Deadline::new(timers, pid, deadline, future)
    }

    /// Wrap `future`, cutting it off once `timeout` has elapsed from now.
    ///
    /// The clock is read here, so which deadline comes out cannot be pinned
    /// to the arguments; whatever the reading `at` was, the wrapper is the
    /// one [`Deadline::timeout_at`] gives for `at`.
    pub fn timeout(timers: &mut Timers, pid: ProcessId, timeout: Duration, future: F) -> (d:
        Deadline<F>)
        requires
            old(timers).wf(),
            timeout.is_valid(),
        ensures
            final(timers).wf(),
            exists|at: Instant| d.spec_deadline() == #[trigger] at.spec_saturating_add(timeout),
            d.spec_future() == future,
            gained_deadline(old(timers).model(), final(timers).model(), d.spec_deadline(), pid),
    {
        let at = now();
        Deadline::timeout_at(timers, pid, at, timeout, future)
    }

    /// Returns the deadline set for this wrapper.
    pub fn deadline(&self) -> (d: Instant)
        ensures
            d == self.spec_deadline(),
    {
        self.deadline
    }

    /// Whether the deadline has passed at the instant `now`.
    pub fn has_passed_at(&self, at: &Instant) -> (r: bool)
        ensures
            r == (self.spec_deadline().nanos <= at.nanos),
    {
        self.deadline.le(at)
    }

    /// Whether the deadline has passed, against a fresh clock reading.
    pub fn has_passed(&self) -> (r: bool) {
        let at = now();
        self.has_passed_at(&at)
    }

    /// The short-circuit decision of one poll at the instant `now`: once the
    /// deadline has passed the result is `Some(DeadlinePassed)` — the
    /// wrapped future is cut off — and before that it is `None` and the
    /// caller polls the wrapped future instead.
    pub fn poll_at(&self, at: &Instant) -> (r: Option<DeadlinePassed>)
        ensures
            r is Some <==> self.spec_deadline().nanos <= at.nanos,
    {
        if self.has_passed_at(at) {
            Some(DeadlinePassed)
        } else {
            None
        }
    }

    /// Borrow the wrapped future, to poll it while the deadline has not
    /// passed.
    pub fn future_mut(&mut self) -> (r: &mut F)
        ensures
            *r == old(self).spec_future(),
            final(self).spec_deadline() == old(self).spec_deadline(),
            final(self).spec_future() == *final(r),
    {
        &mut self.future
    }

    /// Take the wrapped future out, dropping the deadline.
    pub fn into_future(self) -> (r: F)
        ensures
            r == self.spec_future(),
    {
        self.future
    }

    /// Rebind this wrapper to the process with id `pid`, registering a fresh
    /// deadline at the same instant; the stale entry fires harmlessly.
    pub fn bind_to(&mut self, timers: &mut Timers, pid: ProcessId)
        requires
            old(timers).wf(),
        ensures
            final(timers).wf(),
            *final(self) == *old(self),
            gained_deadline(
                old(timers).model(),
                final(timers).model(),
                old(self).spec_deadline(),
                pid,
            ),
    {
        timers.add_deadline(pid, self.deadline);
    }
}

/// A stream that yields [`DeadlinePassed`] each time an interval has
/// passed.
///
/// The next deadline is set when a poll yields, so an interval polled
/// slowly drifts: the gap between two yields can grow beyond the interval.
/// The stream never ends by itself.
#[derive(Clone, Copy, PartialEq, Eq, Structural, Debug)]
pub struct Interval {
    /// The period.
    interval: Duration,
    /// When the stream next yields.
    deadline: Instant,
    /// The process this stream wakes.
    pid: ProcessId,
}

impl Interval {
    /// The period.
    pub closed spec fn spec_interval(self) -> Duration {
        self.interval
    }

    /// When the stream next yields.
    pub closed spec fn spec_deadline(self) -> Instant {
        self.deadline
    }

    /// The process this stream wakes.
    pub closed spec fn spec_pid(self) -> ProcessId {
        self.pid
    }

    /// Create a new interval stream for the process with id `pid`, measured
    /// from the instant `at`: it first yields once `interval` has elapsed
    /// from `at` — the first deadline is exactly `at` plus `interval`,
    /// saturating — and then each `interval` after the preceding poll that
    /// yielded.
    pub fn starting_at(timers: &mut Timers, pid: ProcessId, at: Instant, interval: Duration) -> (r:
        Interval)
        requires
            old(timers).wf(),
            interval.is_valid(),
        ensures
            final(timers).wf(),
            r.spec_interval() == interval,
            r.spec_pid() == pid,
            r.spec_deadline() == at.spec_saturating_add(interval),
            gained_deadline(old(timers).model(), final(timers).model(), r.spec_deadline(), pid),
    {
        let deadline = at.saturating_add(&interval);
        timers.add_deadline(pid, deadline);
        Interval { interval, deadline, pid }
    }

    /// Create a new interval stream measured from now.
    ///
    /// The clock is read here, so which first deadline comes out cannot be
    /// pinned to the arguments; whatever the reading `at` was, the stream is
    /// the one [`Interval::starting_at`] gives for `at`.
    pub fn new(timers: &mut Timers, pid: ProcessId, interval: Duration) -> (r: Interval)
        requires
            old(timers).wf(),
            interval.is_valid(),
        ensures
            final(timers).wf(),
            r.spec_interval() == interval,
            r.spec_pid() == pid,
            exists|at: Instant| r.spec_deadline() == #[trigger] at.spec_saturating_add(interval),
            gained_deadline(old(timers).model(), final(timers).model(), r.spec_deadline(), pid),
    {
        let at = now();
        Interval::starting_at(timers, pid, at, interval)
    }

    /// Returns the next deadline for this interval.
    pub fn next_deadline(&self) -> (d: Instant)
        ensures
            d == self.spec_deadline(),
    {
        self.deadline
    }

    /// One poll of the stream at the instant `now`.
    ///
    /// Yields [`DeadlinePassed`] exactly when the pending deadline has
    /// passed; the next deadline is then `now` plus the interval — not the
    /// old deadline plus the interval, hence the drift — and is registered.
    /// A poll before the deadline is pending and changes nothing.
    pub fn poll_next_at(&mut self, timers: &mut Timers, at: &Instant) -> (r: Option<DeadlinePassed>)
        requires
            old(timers).wf(),
            old(self).spec_interval().is_valid(),
        ensures
            final(timers).wf(),
            r is Some <==> old(self).spec_deadline().nanos <= at.nanos,
            final(self).spec_interval() == old(self).spec_interval(),
            final(self).spec_pid() == old(self).spec_pid(),
            r is None ==> *final(self) == *old(self) && final(timers).model() == old(timers).model(),
            r is Some ==> {
                &&& final(self).spec_deadline().nanos == spec_add_saturated(
                    at.nanos as int + old(self).spec_interval().spec_as_nanos(),
                )
                &&& gained_deadline(
                    old(timers).model(),
                    final(timers).model(),
                    final(self).spec_deadline(),
                    old(self).spec_pid(),
                )
            },
    {
        if self.deadline.le(at) {
            let next_deadline = at.saturating_add(&self.interval);
            self.deadline = next_deadline;
            timers.add_deadline(self.pid, next_deadline);
            Some(DeadlinePassed)
        } else {
            None
        }
    }

    /// The stream never ends by itself.
    pub fn is_terminated(&self) -> (r: bool)
        ensures
            !r,
    {
        false
    }

    /// Rebind this stream to the process with id `pid`, registering a fresh
    /// deadline at the pending instant; the stale entry fires harmlessly.
    pub fn bind_to(&mut self, timers: &mut Timers, pid: ProcessId)
        requires
            old(timers).wf(),
        ensures
            final(timers).wf(),
            final(self).spec_interval() == old(self).spec_interval(),
            final(self).spec_deadline() == old(self).spec_deadline(),
            final(self).spec_pid() == pid,
            gained_deadline(
                old(timers).model(),
                final(timers).model(),
                old(self).spec_deadline(),
                pid,
            ),
    {
        timers.add_deadline(pid, self.deadline);
        self.pid = pid;
    }
}

/// A sum of nanosecond counts, capped at the largest representable instant.
pub open spec fn spec_add_saturated(n: int) -> int {
    if n <= u64::MAX {
        n
    } else {
        u64::MAX as int
    }
}

} // verus!
