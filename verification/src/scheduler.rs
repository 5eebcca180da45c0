//! The thread-local scheduler: a run queue of ready process records plus the
//! set of inactive records waiting to be woken.
//!
//! Records are heap-allocated and handed around as boxes, so a record never
//! moves in memory between the moment it is installed and the moment it is
//! permanently removed, however the scheduler's internal vectors grow.
//!
//! The scheduler's visible behaviour is captured by [`SchedModel`], a pair of
//! sequences (ready and inactive records); every operation's contract states
//! the model it leaves behind.

use vstd::prelude::*;

use crate::process::{runs_before, Priority, ProcessData, ProcessId};
use crate::time::Duration;

verus! {

/// Whether some record in `s` carries the identifier `pid`.
pub open spec fn seq_has_pid<P>(s: Seq<Box<ProcessData<P>>>, pid: u32) -> bool {
    exists|i: int| 0 <= i < s.len() && (#[trigger] s[i]).pid.0 == pid
}

/// The index of the record carrying `pid`; meaningful only when
/// [`seq_has_pid`] holds and identifiers are distinct.
pub open spec fn idx_of_pid<P>(s: Seq<Box<ProcessData<P>>>, pid: u32) -> int {
    choose|i: int| 0 <= i < s.len() && (#[trigger] s[i]).pid.0 == pid
}

/// All records in `s` carry distinct identifiers.
pub open spec fn distinct_pids<P>(s: Seq<Box<ProcessData<P>>>) -> bool {
    forall|i: int, j: int|
        0 <= i < s.len() && 0 <= j < s.len() && i != j ==> (#[trigger] s[i]).pid.0 != (
        #[trigger] s[j]).pid.0
}

/// All identifiers in `s` lie below `bound`.
pub open spec fn pids_below<P>(s: Seq<Box<ProcessData<P>>>, bound: u32) -> bool {
    forall|i: int| 0 <= i < s.len() ==> (#[trigger] s[i]).pid.0 < bound
}

/// All records in `s` are well-formed.
pub open spec fn all_valid<P>(s: Seq<Box<ProcessData<P>>>) -> bool {
    forall|i: int| 0 <= i < s.len() ==> (#[trigger] s[i]).is_valid()
}

/// No identifier occurs in both `a` and `b`.
pub open spec fn disjoint_pids<P>(a: Seq<Box<ProcessData<P>>>, b: Seq<Box<ProcessData<P>>>) -> bool {
    forall|i: int, j: int|
        0 <= i < a.len() && 0 <= j < b.len() ==> (#[trigger] a[i]).pid.0 != (#[trigger] b[j]).pid.0
}

/// In a sequence of distinct identifiers the index of a present identifier
/// is the one where it was found.
pub proof fn lemma_idx_of_pid<P>(s: Seq<Box<ProcessData<P>>>, pid: u32, i: int)
    requires
        distinct_pids(s),
        0 <= i < s.len(),
        s[i].pid.0 == pid,
    ensures
        seq_has_pid(s, pid),
        idx_of_pid(s, pid) == i,
{
    assert(seq_has_pid(s, pid));
    let j = idx_of_pid(s, pid);
    assert(0 <= j < s.len() && s[j].pid.0 == pid);
}

/// The scheduler's visible state: the ready records, in no particular
/// order, and the inactive records.
#[verifier::ext_equal]
pub ghost struct SchedModel<P> {
    /// Records that may be handed to a worker.
    pub ready: Seq<Box<ProcessData<P>>>,
    /// Records waiting to be marked ready.
    pub inactive: Seq<Box<ProcessData<P>>>,
}

impl<P> SchedModel<P> {
    /// Whether the scheduler holds a record with identifier `pid`, ready or
    /// not.
    pub open spec fn contains(self, pid: u32) -> bool {
        seq_has_pid(self.ready, pid) || seq_has_pid(self.inactive, pid)
    }

    /// Whether the record with identifier `pid` is in the ready set.
    pub open spec fn is_ready(self, pid: u32) -> bool {
        seq_has_pid(self.ready, pid)
    }

    /// How many records the scheduler holds in all.
    pub open spec fn count(self) -> nat {
        self.ready.len() + self.inactive.len()
    }

    /// The model after installing a record, ready or inactive.
    pub open spec fn insert(self, rec: Box<ProcessData<P>>, ready: bool) -> SchedModel<P> {
        if ready {
            SchedModel { ready: self.ready.push(rec), inactive: self.inactive }
        } else {
            SchedModel { ready: self.ready, inactive: self.inactive.push(rec) }
        }
    }

    /// The model after marking `pid` ready: an inactive record moves to the
    /// ready set; anything else leaves the model unchanged.
    pub open spec fn mark_ready(self, pid: u32) -> SchedModel<P> {
        if seq_has_pid(self.inactive, pid) {
            let i = idx_of_pid(self.inactive, pid);
            SchedModel { ready: self.ready.push(self.inactive[i]), inactive: self.inactive.remove(i) }
        } else {
            self
        }
    }

    /// The model after the ready record at index `i` left the scheduler.
    pub open spec fn remove_ready_at(self, i: int) -> SchedModel<P> {
        SchedModel { ready: self.ready.remove(i), inactive: self.inactive }
    }

    /// The model after the record carrying `pid` left the scheduler for
    /// good, wherever it was; unchanged when no record carries `pid`.
    pub open spec fn remove_pid(self, pid: u32) -> SchedModel<P> {
        if seq_has_pid(self.ready, pid) {
            SchedModel { ready: self.ready.remove(idx_of_pid(self.ready, pid)), inactive: self.inactive }
        } else if seq_has_pid(self.inactive, pid) {
            SchedModel {
                ready: self.ready,
                inactive: self.inactive.remove(idx_of_pid(self.inactive, pid)),
            }
        } else {
            self
        }
    }

    /// Well-formedness below an identifier bound: identifiers are distinct,
    /// all lie below the bound, and every record is well-formed.
    pub open spec fn wf_below(self, bound: u32) -> bool {
        &&& distinct_pids(self.ready)
        &&& distinct_pids(self.inactive)
        &&& disjoint_pids(self.ready, self.inactive)
        &&& pids_below(self.ready, bound)
        &&& pids_below(self.inactive, bound)
        &&& all_valid(self.ready)
        &&& all_valid(self.inactive)
    }
}

/// A single-threaded scheduler serving one worker.
///
/// A process record is in exactly one of three places: the ready set, the
/// inactive set, or — between [`next_process`] and [`add_process`] — the
/// hands of the worker running it.
///
/// [`next_process`]: LocalScheduler::next_process
/// [`add_process`]: LocalScheduler::add_process
pub struct LocalScheduler<P> {
    /// The identifier the next reservation returns.
    next_pid: u32,
    /// Ready records; order is internal.
    ready: Vec<Box<ProcessData<P>>>,
    /// Inactive records; order is internal.
    inactive: Vec<Box<ProcessData<P>>>,
}

impl<P> LocalScheduler<P> {
    /// The scheduler's visible state.
    pub closed spec fn model(self) -> SchedModel<P> {
        SchedModel { ready: self.ready@, inactive: self.inactive@ }
    }

    /// The identifier the next reservation returns; every held record's
    /// identifier lies below it.
    pub closed spec fn spec_next_pid(self) -> u32 {
        self.next_pid
    }

    /// The scheduler's invariant.
    pub open spec fn wf(self) -> bool {
        self.model().wf_below(self.spec_next_pid())
    }

    /// Create an empty scheduler.
    pub fn new() -> (s: LocalScheduler<P>)
        ensures
            s.wf(),
            s.model().ready.len() == 0,
            s.model().inactive.len() == 0,
            s.spec_next_pid() == 0,
    {
        LocalScheduler { next_pid: 0, ready: Vec::new(), inactive: Vec::new() }
    }

    /// Reserve a fresh process identifier.
    ///
    /// The identifier is not yet attached to any record; the caller installs
    /// one with [`LocalScheduler::add_new_process`], or never does, in which
    /// case marking the identifier ready is a harmless no-op.
    pub fn add_actor(&mut self) -> (pid: ProcessId)
        requires
            old(self).wf(),
            old(self).spec_next_pid() < u32::MAX,
        ensures
            final(self).wf(),
            final(self).model() == old(self).model(),
            final(self).spec_next_pid() == old(self).spec_next_pid() + 1,
            pid.0 == old(self).spec_next_pid(),
            !old(self).model().contains(pid.0),
    {
        let pid = self.next_pid;
        self.next_pid = self.next_pid + 1;
        ProcessId(pid)
    }

    /// Whether the scheduler holds any process, ready or not.
    pub fn has_process(&self) -> (r: bool)
        ensures
            r == (self.model().count() > 0),
    {
        self.ready.len() > 0 || self.inactive.len() > 0
    }

    /// Whether the scheduler holds a process that is ready to run.
    pub fn has_ready_process(&self) -> (r: bool)
        ensures
            r == (self.model().ready.len() > 0),
    {
        self.ready.len() > 0
    }

    /// The smallest virtual runtime among the ready records, or zero when
    /// none is ready. A newly admitted process starts from this value so
    /// that it neither starves nor monopolises the worker.
    fn min_ready_fair(&self) -> (d: Duration)
        requires
            self.wf(),
        ensures
            d.is_valid(),
            self.model().ready.len() == 0 ==> d == (Duration { secs: 0, nanos: 0 }),
            self.model().ready.len() > 0 ==> exists|i: int|
                0 <= i < self.model().ready.len() && d == (#[trigger] self.model().ready[i]).fair_runtime,
            forall|i: int|
                0 <= i < self.model().ready.len() ==> d.spec_as_nanos() <= (
                #[trigger] self.model().ready[i]).fair_runtime.spec_as_nanos(),
    {
        if self.ready.len() == 0 {
            return Duration::new(0, 0);
        }
        let mut best = self.ready[0].fair_runtime();
        let mut k: usize = 1;
        while k < self.ready.len()
            invariant
                self.wf(),
                1 <= k <= self.ready@.len(),
                best.is_valid(),
                exists|i: int| 0 <= i < self.ready@.len() && best == (#[trigger] self.ready@[i]).fair_runtime,
                forall|i: int|
                    0 <= i < k ==> best.spec_as_nanos() <= (
                    #[trigger] self.ready@[i]).fair_runtime.spec_as_nanos(),
            decreases self.ready@.len() - k,
        {
            let fair = self.ready[k].fair_runtime();
            if fair.le(&best) {
                best = fair;
            }
            k = k + 1;
        }
        best
    }

    /// Install a new process record under a reserved identifier.
    ///
    /// The record starts with the smallest virtual runtime among the ready
    /// records (zero when none is ready) and enters the ready set when
    /// `is_ready` is set, the inactive set otherwise.
    pub fn add_new_process(&mut self, pid: ProcessId, priority: Priority, payload: P, is_ready: bool)
        requires
            old(self).wf(),
            pid.0 < old(self).spec_next_pid(),
            !old(self).model().contains(pid.0),
        ensures
            final(self).wf(),
            final(self).spec_next_pid() == old(self).spec_next_pid(),
            exists|rec: Box<ProcessData<P>>|
                {
                    &&& final(self).model() == #[trigger] old(self).model().insert(rec, is_ready)
                    &&& rec.pid == pid
                    &&& rec.priority == priority
                    &&& rec.payload == payload
                    &&& rec.is_valid()
                    &&& old(self).model().ready.len() == 0 ==> rec.fair_runtime == (Duration {
                        secs: 0,
                        nanos: 0,
                    })
                    &&& forall|i: int|
                        0 <= i < old(self).model().ready.len()
                            ==> rec.fair_runtime.spec_as_nanos() <= (
                        #[trigger] old(self).model().ready[i]).fair_runtime.spec_as_nanos()
                },
            final(self).model().contains(pid.0),
            final(self).model().is_ready(pid.0) == is_ready,
            final(self).model().count() == old(self).model().count() + 1,
            forall|q: u32|
                q != pid.0 ==> #[trigger] final(self).model().contains(q) == old(
                self).model().contains(q),
            forall|q: u32|
                q != pid.0 ==> #[trigger] final(self).model().is_ready(q) == old(
                self).model().is_ready(q),
    {
        let fair = self.min_ready_fair();
        let rec = Box::new(ProcessData::new(pid, priority, fair, payload));
        let ghost recg = rec;
        let ghost m0 = self.model();
        if is_ready {
            self.ready.push(rec);
        } else {
            self.inactive.push(rec);
        }
        proof {
            assert(self.model() =~= m0.insert(recg, is_ready));
            assert(self.model() == m0.insert(recg, is_ready));
            lemma_insert_effects(m0, recg, is_ready, old(self).spec_next_pid());
            assert(m0 == old(self).model());
            assert forall|q: u32|
                q != pid.0 implies #[trigger] self.model().contains(q) == m0.contains(q) by {
                assert(m0.insert(recg, is_ready).contains(q) == m0.contains(q));
            }
            assert forall|q: u32|
                q != pid.0 implies #[trigger] self.model().is_ready(q) == m0.is_ready(q) by {
                assert(m0.insert(recg, is_ready).contains(q) == m0.contains(q));
                assert(m0.insert(recg, is_ready).is_ready(q) == m0.is_ready(q));
            }
        }
    }

    /// Mark the process with identifier `pid` as ready to run.
    ///
    /// Has an effect only when an inactive record carries `pid`: an unknown
    /// identifier, an identifier whose record is already ready, and an
    /// identifier whose record is currently in a worker's hands are all
    /// no-ops.
    pub fn mark_ready(&mut self, pid: ProcessId)
        requires
            old(self).wf(),
        ensures
            final(self).wf(),
            final(self).spec_next_pid() == old(self).spec_next_pid(),
            final(self).model() == old(self).model().mark_ready(pid.0),
            !old(self).model().contains(pid.0) ==> final(self).model() == old(self).model(),
            old(self).model().is_ready(pid.0) ==> final(self).model() == old(self).model(),
            final(self).model().count() == old(self).model().count(),
    {
        let mut k: usize = 0;
        while k < self.inactive.len()
            invariant
                self.wf(),
                self.model() == old(self).model(),
                self.spec_next_pid() == old(self).spec_next_pid(),
                0 <= k <= self.inactive@.len(),
                forall|i: int| 0 <= i < k ==> (#[trigger] self.inactive@[i]).pid.0 != pid.0,
            decreases self.inactive@.len() - k,
        {
            if self.inactive[k].id().0 == pid.0 {
                proof {
                    lemma_idx_of_pid(self.inactive@, pid.0, k as int);
                }
                let ghost m0 = self.model();
                let rec = self.inactive.remove(k);
                self.ready.push(rec);
                proof {
                    assert(self.model() =~= m0.mark_ready(pid.0));
                    lemma_mark_ready_wf(m0, pid.0, old(self).spec_next_pid());
                }
                return ;
            }
            k = k + 1;
        }
        proof {
            assert(!seq_has_pid(self.model().inactive, pid.0));
            assert(self.model() =~= old(self).model().mark_ready(pid.0));
        }
    }

    /// Remove and return the ready process that runs next: the one that runs
    /// before every other ready process in the [`runs_before`] order.
    ///
    /// Returns `None`, and changes nothing, when no process is ready.
    pub fn next_process(&mut self) -> (r: Option<Box<ProcessData<P>>>)
        requires
            old(self).wf(),
        ensures
            final(self).wf(),
            final(self).spec_next_pid() == old(self).spec_next_pid(),
            final(self).model().inactive == old(self).model().inactive,
            match r {
                None => {
                    &&& old(self).model().ready.len() == 0
                    &&& final(self).model() == old(self).model()
                },
                Some(rec) => {
                    &&& old(self).model().is_ready(rec.pid.0)
                    &&& rec == old(self).model().ready[idx_of_pid(old(self).model().ready, rec.pid.0)]
                    &&& final(self).model() == old(self).model().remove_ready_at(
                        idx_of_pid(old(self).model().ready, rec.pid.0),
                    )
                    &&& forall|j: int|
                        0 <= j < old(self).model().ready.len() && (#[trigger] old(
                        self).model().ready[j]).pid.0 != rec.pid.0 ==> runs_before(
                            *rec,
                            *old(self).model().ready[j],
                        )
                    &&& rec.is_valid()
                    &&& !final(self).model().contains(rec.pid.0)
                },
            },
    {
        if self.ready.len() == 0 {
            return None;
        }
        let ghost m0 = self.model();
        let mut best: usize = 0;
        let mut k: usize = 1;
        while k < self.ready.len()
            invariant
                self.wf(),
                self.model() == old(self).model(),
                self.spec_next_pid() == old(self).spec_next_pid(),
                self.ready@.len() > 0,
                0 <= best < k <= self.ready@.len(),
                forall|j: int|
                    0 <= j < k && j != best ==> runs_before(
                        *self.ready@[best as int],
                        *(#[trigger] self.ready@[j]),
                    ),
            decreases self.ready@.len() - k,
        {
            let earlier = {
                let a = &self.ready[k];
                let b = &self.ready[best];
                a.runs_before_exec(b)
            };
            if earlier {
                proof {
                    let ghost old_best = best as int;
                    assert forall|j: int| 0 <= j < k + 1 && j != k as int implies runs_before(
                        *self.ready@[k as int],
                        *(#[trigger] self.ready@[j]),
                    ) by {
                        if j != old_best {
                            crate::process::lemma_runs_before_trans(
                                *self.ready@[k as int],
                                *self.ready@[old_best],
                                *self.ready@[j],
                            );
                        }
                    }
                }
                best = k;
            } else {
                proof {
                    crate::process::lemma_runs_before_total(
                        *self.ready@[k as int],
                        *self.ready@[best as int],
                    );
                }
            }
            k = k + 1;
        }
        let rec = self.ready.remove(best);
        proof {
            lemma_idx_of_pid(m0.ready, rec.pid.0, best as int);
            assert(self.model() =~= m0.remove_ready_at(best as int));
            lemma_remove_ready_wf(m0, best as int, old(self).spec_next_pid());
            assert forall|i: int| 0 <= i < self.inactive@.len() implies (
            #[trigger] self.inactive@[i]).pid.0 != rec.pid.0 by {}
        }
        Some(rec)
    }

    /// Spawn a new process: reserve an identifier, build the process' work
    /// with `factory`, and install the record.
    ///
    /// The spawn succeeds exactly when the factory does; a factory error is
    /// handed back to the spawner and nothing is installed — the reserved
    /// identifier then never names a record, and marking it ready stays a
    /// harmless no-op.
    pub fn try_spawn<E, F>(&mut self, priority: Priority, is_ready: bool, factory: F) -> (r: Result<
        ProcessId,
        E,
    >) where F: FnOnce(ProcessId) -> Result<P, E>
        requires
            old(self).wf(),
            old(self).spec_next_pid() < u32::MAX,
            forall|pid: ProcessId| #[trigger] call_requires(factory, (pid,)),
        ensures
            final(self).wf(),
            final(self).spec_next_pid() == old(self).spec_next_pid() + 1,
            match r {
                Ok(pid) => {
                    &&& pid.0 == old(self).spec_next_pid()
                    &&& final(self).model().contains(pid.0)
                    &&& final(self).model().is_ready(pid.0) == is_ready
                    &&& final(self).model().count() == old(self).model().count() + 1
                    &&& exists|rec: Box<ProcessData<P>>|
                        {
                            &&& final(self).model() == #[trigger] old(self).model().insert(
                                rec,
                                is_ready,
                            )
                            &&& rec.pid == pid
                            &&& rec.priority == priority
                            &&& call_ensures(factory, (pid,), Ok::<P, E>(rec.payload))
                        }
                },
                Err(e) => {
                    &&& final(self).model() == old(self).model()
                    &&& call_ensures(
                        factory,
                        (ProcessId(old(self).spec_next_pid()),),
                        Err::<P, E>(e),
                    )
                },
            },
    {
        let pid = self.add_actor();
        match factory(pid) {
            Ok(payload) => {
                let ghost m0 = self.model();
                self.add_new_process(pid, priority, payload, is_ready);
                proof {
                    let rec = choose|rec: Box<ProcessData<P>>|
                        {
                            &&& self.model() == #[trigger] m0.insert(rec, is_ready)
                            &&& rec.pid == pid
                            &&& rec.priority == priority
                            &&& rec.payload == payload
                            &&& rec.is_valid()
                        };
                    assert(self.model() == old(self).model().insert(rec, is_ready));
                }
                Ok(pid)
            },
            Err(error) => Err(error),
        }
    }

    /// Return a process record to the scheduler's inactive set, typically
    /// after the worker polled it and it was not complete.
    pub fn add_process(&mut self, process: Box<ProcessData<P>>)
        requires
            old(self).wf(),
            process.is_valid(),
            process.pid.0 < old(self).spec_next_pid(),
            !old(self).model().contains(process.pid.0),
        ensures
            final(self).wf(),
            final(self).spec_next_pid() == old(self).spec_next_pid(),
            final(self).model() == old(self).model().insert(process, false),
            final(self).model().contains(process.pid.0),
            !final(self).model().is_ready(process.pid.0),
            final(self).model().count() == old(self).model().count() + 1,
    {
        let ghost m0 = self.model();
        let ghost recg = process;
        self.inactive.push(process);
        proof {
            assert(self.model() =~= m0.insert(recg, false));
            lemma_insert_effects(m0, recg, false, old(self).spec_next_pid());
        }
    }
}

/// The model after installing every record of `recs` in order.
pub open spec fn insert_all<P>(m: SchedModel<P>, recs: Seq<Box<ProcessData<P>>>, ready: bool) -> SchedModel<P>
    decreases recs.len(),
{
    if recs.len() == 0 {
        m
    } else {
        insert_all(m, recs.drop_last(), ready).insert(recs.last(), ready)
    }
}

/// The model after removing every record of `recs`, last first.
pub open spec fn remove_all_rev<P>(m: SchedModel<P>, recs: Seq<Box<ProcessData<P>>>) -> SchedModel<P>
    decreases recs.len(),
{
    if recs.len() == 0 {
        m
    } else {
        remove_all_rev(m.remove_pid(recs.last().pid.0), recs.drop_last())
    }
}

/// A scheduler holds an identifier after a batch of installs exactly when it
/// held it before or the batch carries it.
pub proof fn lemma_insert_all_contains<P>(
    m: SchedModel<P>,
    recs: Seq<Box<ProcessData<P>>>,
    ready: bool,
    q: u32,
)
    ensures
        insert_all(m, recs, ready).contains(q) <==> (m.contains(q) || seq_has_pid(recs, q)),
    decreases recs.len(),
{
    if recs.len() == 0 {
        assert(!seq_has_pid(recs, q));
    } else {
        lemma_insert_all_contains(m, recs.drop_last(), ready, q);
        let m1 = insert_all(m, recs.drop_last(), ready);
        let m2 = m1.insert(recs.last(), ready);
        assert(m2.contains(q) <==> (m1.contains(q) || recs.last().pid.0 == q)) by {
            lemma_insert_contains(m1, recs.last(), ready, q);
        }
        assert(seq_has_pid(recs, q) <==> (seq_has_pid(recs.drop_last(), q) || recs.last().pid.0
            == q)) by {
            if seq_has_pid(recs, q) {
                let i = choose|i: int| 0 <= i < recs.len() && (#[trigger] recs[i]).pid.0 == q;
                if i < recs.len() - 1 {
                    assert(recs.drop_last()[i].pid.0 == q);
                }
            }
            if seq_has_pid(recs.drop_last(), q) {
                let i = choose|i: int|
                    0 <= i < recs.drop_last().len() && (#[trigger] recs.drop_last()[i]).pid.0 == q;
                assert(recs[i].pid.0 == q);
            }
            if recs.last().pid.0 == q {
                assert(recs[recs.len() - 1].pid.0 == q);
            }
        }
    }
}

/// Installing a record makes the scheduler hold its identifier and no other.
proof fn lemma_insert_contains<P>(m: SchedModel<P>, rec: Box<ProcessData<P>>, ready: bool, q: u32)
    ensures
        m.insert(rec, ready).contains(q) <==> (m.contains(q) || rec.pid.0 == q),
{
    let m1 = m.insert(rec, ready);
    if ready {
        if seq_has_pid(m1.ready, q) {
            let i = choose|i: int| 0 <= i < m1.ready.len() && (#[trigger] m1.ready[i]).pid.0 == q;
            if i < m.ready.len() {
                assert(m.ready[i].pid.0 == q);
            }
        }
        if seq_has_pid(m.ready, q) {
            let i = choose|i: int| 0 <= i < m.ready.len() && (#[trigger] m.ready[i]).pid.0 == q;
            assert(m1.ready[i].pid.0 == q);
        }
        if rec.pid.0 == q {
            assert(m1.ready[m.ready.len() as int].pid.0 == q);
        }
    } else {
        if seq_has_pid(m1.inactive, q) {
            let i = choose|i: int|
                0 <= i < m1.inactive.len() && (#[trigger] m1.inactive[i]).pid.0 == q;
            if i < m.inactive.len() {
                assert(m.inactive[i].pid.0 == q);
            }
        }
        if seq_has_pid(m.inactive, q) {
            let i = choose|i: int| 0 <= i < m.inactive.len() && (#[trigger] m.inactive[i]).pid.0 == q;
            assert(m1.inactive[i].pid.0 == q);
        }
        if rec.pid.0 == q {
            assert(m1.inactive[m.inactive.len() as int].pid.0 == q);
        }
    }
}

/// Law: installing a record the scheduler does not hold and then removing
/// it returns the scheduler to the state it started in.
pub proof fn lemma_insert_remove_roundtrip<P>(
    m: SchedModel<P>,
    rec: Box<ProcessData<P>>,
    ready: bool,
)
    requires
        !m.contains(rec.pid.0),
    ensures
        m.insert(rec, ready).remove_pid(rec.pid.0) == m,
{
    let m1 = m.insert(rec, ready);
    let pid = rec.pid.0;
    if ready {
        assert(m1.ready[m.ready.len() as int].pid.0 == pid);
        assert(seq_has_pid(m1.ready, pid));
        let i = idx_of_pid(m1.ready, pid);
        assert(0 <= i < m1.ready.len() && m1.ready[i].pid.0 == pid);
        if i < m.ready.len() {
            assert(m.ready[i].pid.0 == pid);
        }
        assert(i == m.ready.len());
        assert(m1.ready.remove(i) =~= m.ready);
        assert(m1.remove_pid(pid) =~= m);
    } else {
        assert(m1.inactive[m.inactive.len() as int].pid.0 == pid);
        assert(!seq_has_pid(m1.ready, pid));
        assert(seq_has_pid(m1.inactive, pid));
        let i = idx_of_pid(m1.inactive, pid);
        assert(0 <= i < m1.inactive.len() && m1.inactive[i].pid.0 == pid);
        if i < m.inactive.len() {
            assert(m.inactive[i].pid.0 == pid);
        }
        assert(i == m.inactive.len());
        assert(m1.inactive.remove(i) =~= m.inactive);
        assert(m1.remove_pid(pid) =~= m);
    }
}

/// Law: spawning a batch of processes with fresh, distinct identifiers and
/// then stopping each of them returns the scheduler to the state it started
/// in; in particular a scheduler that started empty holds no process again.
pub proof fn lemma_spawn_stop_roundtrip<P>(
    m: SchedModel<P>,
    recs: Seq<Box<ProcessData<P>>>,
    ready: bool,
)
    requires
        distinct_pids(recs),
        forall|i: int| 0 <= i < recs.len() ==> !m.contains((#[trigger] recs[i]).pid.0),
    ensures
        remove_all_rev(insert_all(m, recs, ready), recs) == m,
    decreases recs.len(),
{
    if recs.len() == 0 {
    } else {
        let head = recs.drop_last();
        let last = recs.last();
        let m1 = insert_all(m, head, ready);
        assert(!m1.contains(last.pid.0)) by {
            lemma_insert_all_contains(m, head, ready, last.pid.0);
            if seq_has_pid(head, last.pid.0) {
                let i = choose|i: int| 0 <= i < head.len() && (#[trigger] head[i]).pid.0 == last.pid.0;
                assert(recs[i].pid.0 == recs[recs.len() - 1].pid.0);
            }
        }
        lemma_insert_remove_roundtrip(m1, last, ready);
        assert forall|i: int| 0 <= i < head.len() implies !m.contains((#[trigger] head[i]).pid.0) by {
            assert(head[i] == recs[i]);
        }
        lemma_spawn_stop_roundtrip(m, head, ready);
    }
}

/// A scheduler holding nothing at all holds no identifier either: the
/// initial state every spawn-and-stop round trip returns to.
pub proof fn lemma_empty_holds_nothing<P>(m: SchedModel<P>, q: u32)
    requires
        m.count() == 0,
    ensures
        !m.contains(q),
        !m.is_ready(q),
{
}

/// Law, specialised to an empty start: after spawning and stopping any batch
/// of processes with distinct identifiers the scheduler again holds no
/// process at all.
pub proof fn lemma_spawn_stop_empty<P>(recs: Seq<Box<ProcessData<P>>>, ready: bool)
    requires
        distinct_pids(recs),
    ensures
        remove_all_rev(
            insert_all(SchedModel { ready: Seq::empty(), inactive: Seq::empty() }, recs, ready),
            recs,
        ).count() == 0,
{
    let m = SchedModel::<P> { ready: Seq::empty(), inactive: Seq::empty() };
    assert forall|i: int| 0 <= i < recs.len() implies !m.contains((#[trigger] recs[i]).pid.0) by {}
    lemma_spawn_stop_roundtrip(m, recs, ready);
}

/// Inserting a fresh, well-formed record preserves the scheduler invariant
/// and changes no other record's place.
proof fn lemma_insert_effects<P>(m: SchedModel<P>, rec: Box<ProcessData<P>>, ready: bool, bound: u32)
    requires
        m.wf_below(bound),
        rec.pid.0 < bound,
        !m.contains(rec.pid.0),
        rec.is_valid(),
    ensures
        m.insert(rec, ready).wf_below(bound),
        m.insert(rec, ready).contains(rec.pid.0),
        m.insert(rec, ready).is_ready(rec.pid.0) == ready,
        m.insert(rec, ready).count() == m.count() + 1,
        forall|q: u32|
            q != rec.pid.0 ==> (#[trigger] m.insert(rec, ready).contains(q) == m.contains(q)
                && m.insert(rec, ready).is_ready(q) == m.is_ready(q)),
{
    let m1 = m.insert(rec, ready);
    assert forall|q: u32| q != rec.pid.0 implies (#[trigger] m1.contains(q) == m.contains(q)
        && m1.is_ready(q) == m.is_ready(q)) by {
        if ready {
            assert(m1.ready == m.ready.push(rec));
            if seq_has_pid(m1.ready, q) {
                let i = choose|i: int| 0 <= i < m1.ready.len() && (#[trigger] m1.ready[i]).pid.0 == q;
                assert(i < m.ready.len() && m.ready[i].pid.0 == q);
            }
            if seq_has_pid(m.ready, q) {
                let i = choose|i: int| 0 <= i < m.ready.len() && (#[trigger] m.ready[i]).pid.0 == q;
                assert(m1.ready[i].pid.0 == q);
            }
        } else {
            if seq_has_pid(m1.inactive, q) {
                let i = choose|i: int|
                    0 <= i < m1.inactive.len() && (#[trigger] m1.inactive[i]).pid.0 == q;
                assert(i < m.inactive.len() && m.inactive[i].pid.0 == q);
            }
            if seq_has_pid(m.inactive, q) {
                let i = choose|i: int|
                    0 <= i < m.inactive.len() && (#[trigger] m.inactive[i]).pid.0 == q;
                assert(m1.inactive[i].pid.0 == q);
            }
        }
    }
    if ready {
        assert(m1.is_ready(rec.pid.0)) by {
            assert(m1.ready[m.ready.len() as int].pid.0 == rec.pid.0);
        }
    } else {
        assert(m1.contains(rec.pid.0)) by {
            assert(m1.inactive[m.inactive.len() as int].pid.0 == rec.pid.0);
        }
        assert(!m1.is_ready(rec.pid.0));
    }
}

/// Moving an inactive record to the ready set preserves the invariant.
proof fn lemma_mark_ready_wf<P>(m: SchedModel<P>, pid: u32, bound: u32)
    requires
        m.wf_below(bound),
    ensures
        m.mark_ready(pid).wf_below(bound),
        m.mark_ready(pid).count() == m.count(),
{
    if seq_has_pid(m.inactive, pid) {
        let i = idx_of_pid(m.inactive, pid);
        assert(0 <= i < m.inactive.len() && m.inactive[i].pid.0 == pid);
        let m1 = m.mark_ready(pid);
        assert forall|a: int, b: int|
            0 <= a < m1.ready.len() && 0 <= b < m1.ready.len() && a != b implies (
        #[trigger] m1.ready[a]).pid.0 != (#[trigger] m1.ready[b]).pid.0 by {}
        assert forall|a: int, b: int|
            0 <= a < m1.ready.len() && 0 <= b < m1.inactive.len() implies (
        #[trigger] m1.ready[a]).pid.0 != (#[trigger] m1.inactive[b]).pid.0 by {
            if b < i {
                assert(m1.inactive[b] == m.inactive[b]);
            } else {
                assert(m1.inactive[b] == m.inactive[b + 1]);
            }
        }
    }
}

/// Removing a ready record preserves the invariant.
proof fn lemma_remove_ready_wf<P>(m: SchedModel<P>, i: int, bound: u32)
    requires
        m.wf_below(bound),
        0 <= i < m.ready.len(),
    ensures
        m.remove_ready_at(i).wf_below(bound),
        !m.remove_ready_at(i).contains(m.ready[i].pid.0),
{
    let m1 = m.remove_ready_at(i);
    assert forall|a: int, b: int|
        0 <= a < m1.ready.len() && 0 <= b < m1.inactive.len() implies (
    #[trigger] m1.ready[a]).pid.0 != (#[trigger] m1.inactive[b]).pid.0 by {
        if a < i {
            assert(m1.ready[a] == m.ready[a]);
        } else {
            assert(m1.ready[a] == m.ready[a + 1]);
        }
    }
    if seq_has_pid(m1.ready, m.ready[i].pid.0) {
        let j = choose|j: int|
            0 <= j < m1.ready.len() && (#[trigger] m1.ready[j]).pid.0 == m.ready[i].pid.0;
        if j < i {
            assert(m1.ready[j] == m.ready[j]);
        } else {
            assert(m1.ready[j] == m.ready[j + 1]);
        }
    }
    if seq_has_pid(m1.inactive, m.ready[i].pid.0) {
        let j = choose|j: int|
            0 <= j < m1.inactive.len() && (#[trigger] m1.inactive[j]).pid.0 == m.ready[i].pid.0;
    }
}

} // verus!
