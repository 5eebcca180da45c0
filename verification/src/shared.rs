//! The shared scheduler: the work-stealing counterpart of
//! [`LocalScheduler`](crate::scheduler::LocalScheduler).
//!
//! It keeps the same contract as the thread-local scheduler — the same model,
//! the same run order, the same no-op rules for unknown identifiers — but
//! serves every worker rather than one. Workers that share it across threads
//! guard it with a lock and call these methods under that lock; the methods
//! themselves are the sequential core the lock protects.

use vstd::prelude::*;

use crate::process::{runs_before, Priority, ProcessData, ProcessId};
use crate::scheduler::{idx_of_pid, LocalScheduler, SchedModel};
use crate::time::Duration;

verus! {

/// The scheduler shared by all workers for thread-safe processes.
pub struct Scheduler<P> {
    /// The sequential core.
    inner: LocalScheduler<P>,
}

impl<P> Scheduler<P> {
    /// The scheduler's visible state.
    pub closed spec fn model(self) -> SchedModel<P> {
        self.inner.model()
    }

    /// The identifier the next reservation returns.
    pub closed spec fn spec_next_pid(self) -> u32 {
        self.inner.spec_next_pid()
    }

    /// The scheduler's invariant.
    pub open spec fn wf(self) -> bool {
        self.model().wf_below(self.spec_next_pid())
    }

    /// Create an empty shared scheduler.
    pub fn new() -> (s: Scheduler<P>)
        ensures
            s.wf(),
            s.model().ready.len() == 0,
            s.model().inactive.len() == 0,
            s.spec_next_pid() == 0,
    {
        Scheduler { inner: LocalScheduler::new() }
    }

    /// Whether the scheduler holds any process, ready or not.
    pub fn has_process(&self) -> (r: bool)
        ensures
            r == (self.model().count() > 0),
    {
        self.inner.has_process()
    }

    /// Whether the scheduler holds a process that is ready to run.
    pub fn has_ready_process(&self) -> (r: bool)
        ensures
            r == (self.model().ready.len() > 0),
    {
        self.inner.has_ready_process()
    }

    /// Reserve a fresh process identifier, see
    /// [`LocalScheduler::add_actor`].
    pub fn add_actor(&mut self) -> (pid: ProcessId)
        requires
            old(self).wf(),
            old(self).spec_next_pid() < u32::MAX,
        ensures
            final(self).wf(),
            final(self).model() == old(self).model(),
            final(self).spec_next_pid() == old(self).spec_next_pid() + 1,
            pid.0 == old(self).spec_next_pid(),
            !old(self).model().contains(pid.0),
    {
        self.inner.add_actor()
    }

    /// Install a new process record under a reserved identifier, see
    /// [`LocalScheduler::add_new_process`]: the record carries the given
    /// priority and payload and starts from the smallest virtual runtime
    /// among the ready records (zero when none is ready).
    pub fn add_new_process(&mut self, pid: ProcessId, priority: Priority, payload: P, is_ready: bool)
        requires
            old(self).wf(),
            pid.0 < old(self).spec_next_pid(),
            !old(self).model().contains(pid.0),
        ensures
            final(self).wf(),
            final(self).spec_next_pid() == old(self).spec_next_pid(),
            exists|rec: Box<ProcessData<P>>|
                {
                    &&& final(self).model() == #[trigger] old(self).model().insert(rec, is_ready)
                    &&& rec.pid == pid
                    &&& rec.priority == priority
                    &&& rec.payload == payload
                    &&& rec.is_valid()
                    &&& old(self).model().ready.len() == 0 ==> rec.fair_runtime == (Duration {
                        secs: 0,
                        nanos: 0,
                    })
                    &&& forall|i: int|
                        0 <= i < old(self).model().ready.len()
                            ==> rec.fair_runtime.spec_as_nanos() <= (
                        #[trigger] old(self).model().ready[i]).fair_runtime.spec_as_nanos()
                },
            final(self).model().contains(pid.0),
            final(self).model().is_ready(pid.0) == is_ready,
            final(self).model().count() == old(self).model().count() + 1,
            forall|q: u32|
                q != pid.0 ==> #[trigger] final(self).model().contains(q) == old(
                self).model().contains(q),
            forall|q: u32|
                q != pid.0 ==> #[trigger] final(self).model().is_ready(q) == old(
                self).model().is_ready(q),
    {
        self.inner.add_new_process(pid, priority, payload, is_ready)
    }

    /// Install a plain future as a process of its own: the identifier is
    /// reserved and the record — carrying exactly the given priority and
    /// payload, starting from the smallest ready virtual runtime — enters
    /// the ready set at once.
    pub fn add_future(&mut self, payload: P, priority: Priority) -> (pid: ProcessId)
        requires
            old(self).wf(),
            old(self).spec_next_pid() < u32::MAX,
        ensures
            final(self).wf(),
            final(self).spec_next_pid() == old(self).spec_next_pid() + 1,
            pid.0 == old(self).spec_next_pid(),
            exists|rec: Box<ProcessData<P>>|
                {
                    &&& final(self).model() == #[trigger] old(self).model().insert(rec, true)
                    &&& rec.pid == pid
                    &&& rec.priority == priority
                    &&& rec.payload == payload
                    &&& rec.is_valid()
                    &&& old(self).model().ready.len() == 0 ==> rec.fair_runtime == (Duration {
                        secs: 0,
                        nanos: 0,
                    })
                    &&& forall|i: int|
                        0 <= i < old(self).model().ready.len()
                            ==> rec.fair_runtime.spec_as_nanos() <= (
                        #[trigger] old(self).model().ready[i]).fair_runtime.spec_as_nanos()
                },
            final(self).model().contains(pid.0),
            final(self).model().is_ready(pid.0),
            final(self).model().count() == old(self).model().count() + 1,
    {
        let pid = self.inner.add_actor();
        let ghost m0 = self.inner.model();
        self.inner.add_new_process(pid, priority, payload, true);
        proof {
            assert(m0 == old(self).model());
        }
        pid
    }

    /// Mark the process with identifier `pid` as ready to run, see
    /// [`LocalScheduler::mark_ready`]. Unknown, already-ready and in-flight
    /// identifiers are no-ops.
    pub fn mark_ready(&mut self, pid: ProcessId)
        requires
            old(self).wf(),
        ensures
            final(self).wf(),
            final(self).spec_next_pid() == old(self).spec_next_pid(),
            final(self).model() == old(self).model().mark_ready(pid.0),
            !old(self).model().contains(pid.0) ==> final(self).model() == old(self).model(),
            old(self).model().is_ready(pid.0) ==> final(self).model() == old(self).model(),
            final(self).model().count() == old(self).model().count(),
    {
        self.inner.mark_ready(pid)
    }

    /// Remove and return the ready process that runs next, see
    /// [`LocalScheduler::next_process`].
    pub fn remove(&mut self) -> (r: Option<Box<ProcessData<P>>>)
        requires
            old(self).wf(),
        ensures
            final(self).wf(),
            final(self).spec_next_pid() == old(self).spec_next_pid(),
            final(self).model().inactive == old(self).model().inactive,
            match r {
                None => {
                    &&& old(self).model().ready.len() == 0
                    &&& final(self).model() == old(self).model()
                },
                Some(rec) => {
                    &&& old(self).model().is_ready(rec.pid.0)
                    &&& rec == old(self).model().ready[idx_of_pid(old(self).model().ready, rec.pid.0)]
                    &&& final(self).model() == old(self).model().remove_ready_at(
                        idx_of_pid(old(self).model().ready, rec.pid.0),
                    )
                    &&& forall|j: int|
                        0 <= j < old(self).model().ready.len() && (#[trigger] old(
                        self).model().ready[j]).pid.0 != rec.pid.0 ==> runs_before(
                            *rec,
                            *old(self).model().ready[j],
                        )
                    &&& rec.is_valid()
                    &&& !final(self).model().contains(rec.pid.0)
                },
            },
    {
        self.inner.next_process()
    }

    /// Return a process record to the inactive set, see
    /// [`LocalScheduler::add_process`].
    pub fn add_process(&mut self, process: Box<ProcessData<P>>)
        requires
            old(self).wf(),
            process.is_valid(),
            process.pid.0 < old(self).spec_next_pid(),
            !old(self).model().contains(process.pid.0),
        ensures
            final(self).wf(),
            final(self).spec_next_pid() == old(self).spec_next_pid(),
            final(self).model() == old(self).model().insert(process, false),
            final(self).model().contains(process.pid.0),
            !final(self).model().is_ready(process.pid.0),
            final(self).model().count() == old(self).model().count() + 1,
    {
        self.inner.add_process(process)
    }
}

} // verus!
