//! The decisions of a worker's event loop.
//!
//! Per iteration a worker: drains its wake channel and marks each delivered
//! process ready; expires due deadlines into wake-ups; runs a batch of ready
//! processes, best first; and, when idle, decides how long the blocking poll
//! may sleep. The I/O — the poll itself, the channel, the clock — stays
//! outside; the decisions those results feed are here, each with its
//! contract.

use vstd::prelude::*;

use crate::process::{runs_before, ProcessData, ProcessId};
use crate::scheduler::{LocalScheduler, SchedModel};
use crate::time::Instant;
use crate::timers::Timers;

verus! {

/// Whether `rec` is one of the records of `s`.
pub open spec fn seq_has_record<P>(s: Seq<Box<ProcessData<P>>>, rec: Box<ProcessData<P>>) -> bool {
    exists|l: int| 0 <= l < s.len() && (#[trigger] s[l]) == rec
}

/// The scheduler model after marking every id of `pids` ready, in order.
pub open spec fn ready_all<P>(m: SchedModel<P>, pids: Seq<ProcessId>) -> SchedModel<P>
    decreases pids.len(),
{
    if pids.len() == 0 {
        m
    } else {
        ready_all(m, pids.drop_last()).mark_ready(pids.last().0)
    }
}

/// Marking one id ready never unreadies another: a record already in the
/// ready set stays there.
pub proof fn lemma_mark_ready_preserves_ready<P>(m: SchedModel<P>, p: u32, q: u32)
    requires
        m.is_ready(q),
    ensures
        m.mark_ready(p).is_ready(q),
{
    let m1 = m.mark_ready(p);
    if crate::scheduler::seq_has_pid(m.inactive, p) {
        let i = choose|i: int| 0 <= i < m.ready.len() && (#[trigger] m.ready[i]).pid.0 == q;
        assert(m1.ready[i].pid.0 == q);
    }
}

/// Marking one id ready never loses a record: whatever the scheduler held,
/// it still holds.
pub proof fn lemma_mark_ready_preserves_contains<P>(m: SchedModel<P>, p: u32, q: u32)
    requires
        m.contains(q),
    ensures
        m.mark_ready(p).contains(q),
{
    let m1 = m.mark_ready(p);
    if crate::scheduler::seq_has_pid(m.inactive, p) {
        let i = crate::scheduler::idx_of_pid(m.inactive, p);
        if crate::scheduler::seq_has_pid(m.ready, q) {
            let j = choose|j: int| 0 <= j < m.ready.len() && (#[trigger] m.ready[j]).pid.0 == q;
            assert(m1.ready[j].pid.0 == q);
        } else {
            let j = choose|j: int|
                0 <= j < m.inactive.len() && (#[trigger] m.inactive[j]).pid.0 == q;
            if j == i {
                assert(m1.ready[m.ready.len() as int].pid.0 == q);
            } else if j < i {
                assert(m1.inactive[j].pid.0 == q);
            } else {
                assert(m1.inactive[j - 1].pid.0 == q);
            }
        }
    }
}

/// Marking a held id ready leaves its record in the ready set, wherever it
/// started.
pub proof fn lemma_mark_ready_marks<P>(m: SchedModel<P>, q: u32)
    requires
        m.contains(q),
    ensures
        m.mark_ready(q).is_ready(q),
{
    if m.is_ready(q) {
        lemma_mark_ready_preserves_ready(m, q, q);
    } else {
        assert(crate::scheduler::seq_has_pid(m.inactive, q));
        let i = crate::scheduler::idx_of_pid(m.inactive, q);
        assert(m.mark_ready(q).ready[m.ready.len() as int].pid.0 == q);
    }
}

/// Draining a batch of wake-ups keeps every held record held.
proof fn lemma_ready_all_preserves_contains<P>(m: SchedModel<P>, pids: Seq<ProcessId>, q: u32)
    requires
        m.contains(q),
    ensures
        ready_all(m, pids).contains(q),
    decreases pids.len(),
{
    if pids.len() > 0 {
        lemma_ready_all_preserves_contains(m, pids.drop_last(), q);
        lemma_mark_ready_preserves_contains(ready_all(m, pids.drop_last()), pids.last().0, q);
    }
}

/// Law: a wake delivered for a process the scheduler holds is never lost —
/// after the whole batch of wake-ups is drained, every held process named
/// anywhere in the batch sits in the ready set, however many duplicates or
/// strangers the batch carries besides.
pub proof fn lemma_drained_wakeup_marks_ready<P>(m: SchedModel<P>, pids: Seq<ProcessId>, q: u32)
    requires
        m.contains(q),
        exists|i: int| 0 <= i < pids.len() && (#[trigger] pids[i]).0 == q,
    ensures
        ready_all(m, pids).is_ready(q),
    decreases pids.len(),
{
    let i = choose|i: int| 0 <= i < pids.len() && (#[trigger] pids[i]).0 == q;
    let head = pids.drop_last();
    if i == pids.len() - 1 {
        lemma_ready_all_preserves_contains(m, head, q);
        lemma_mark_ready_marks(ready_all(m, head), q);
    } else {
        assert(head[i].0 == q);
        lemma_drained_wakeup_marks_ready(m, head, q);
        lemma_mark_ready_preserves_ready(ready_all(m, head), pids.last().0, q);
    }
}

/// Mark every process of `pids` ready, in order: the wake-channel drain.
///
/// Each delivered id leads to one `mark_ready` call; ids without an inactive
/// record — stale, duplicate or in-flight wake-ups — change nothing, so the
/// scheduler neither gains nor loses a record here.
pub fn drain_wakeups<P>(sched: &mut LocalScheduler<P>, pids: &Vec<ProcessId>)
    requires
        old(sched).wf(),
    ensures
        final(sched).wf(),
        final(sched).spec_next_pid() == old(sched).spec_next_pid(),
        final(sched).model() == ready_all(old(sched).model(), pids@),
        final(sched).model().count() == old(sched).model().count(),
{
    let mut k: usize = 0;
    while k < pids.len()
        invariant
            sched.wf(),
            sched.spec_next_pid() == old(sched).spec_next_pid(),
            0 <= k <= pids@.len(),
            sched.model() == ready_all(old(sched).model(), pids@.take(k as int)),
            sched.model().count() == old(sched).model().count(),
        decreases pids@.len() - k,
    {
        let ghost mk = sched.model();
        sched.mark_ready(pids[k]);
        proof {
            assert(pids@.take(k + 1).drop_last() =~= pids@.take(k as int));
            assert(pids@.take(k + 1).last() == pids@[k as int]);
            assert(sched.model() == ready_all(old(sched).model(), pids@.take(k + 1)));
        }
        k = k + 1;
    }
    proof {
        assert(pids@.take(pids@.len() as int) =~= pids@);
    }
}

/// Expire every deadline that has passed at `now` and wake the processes
/// they belong to, in deadline order; the ids that fired are returned.
///
/// Afterwards every deadline still pending lies strictly after `now`: a
/// deadline set for the past fires in this very pass, never later.
pub fn expire_deadlines<P>(timers: &mut Timers, sched: &mut LocalScheduler<P>, now: Instant) -> (fired:
    Vec<ProcessId>)
    requires
        old(timers).wf(),
        old(sched).wf(),
    ensures
        final(timers).wf(),
        final(sched).wf(),
        final(sched).spec_next_pid() == old(sched).spec_next_pid(),
        fired@.len() <= old(timers).model().len(),
        final(timers).model() == old(timers).model().skip(fired@.len() as int),
        forall|i: int|
            0 <= i < fired@.len() ==> fired@[i] == (#[trigger] old(timers).model()[i]).1 && old(
            timers).model()[i].0.nanos <= now.nanos,
        forall|i: int|
            0 <= i < final(timers).model().len() ==> (#[trigger] final(
            timers).model()[i]).0.nanos > now.nanos,
        final(sched).model() == ready_all(old(sched).model(), fired@),
        final(sched).model().count() == old(sched).model().count(),
{
    let fired = timers.expire(now);
    drain_wakeups(sched, &fired);
    fired
}

/// How long a worker may block in its poll call.
#[derive(Clone, Copy, PartialEq, Eq, Structural, Debug)]
pub enum PollDecision {
    /// Work is pending: poll without blocking.
    NoBlock,
    /// Nothing to run until this deadline: block no longer than it.
    BlockUntil(Instant),
    /// No ready process and no pending deadline: block until a wake-up
    /// arrives, consuming nothing meanwhile.
    BlockForever,
}

/// Decide how long the worker's poll may block at `now`.
///
/// A worker with a ready process does not block at all; one without ready
/// processes blocks no longer than its earliest pending deadline; and a
/// worker at rest — no ready process, no pending deadline — blocks in the
/// poll alone, indefinitely, until an external wake-up.
pub fn poll_timeout<P>(sched: &LocalScheduler<P>, timers: &Timers, now: Instant) -> (d: PollDecision)
    requires
        timers.wf(),
    ensures
        sched.model().ready.len() > 0 ==> d == PollDecision::NoBlock,
        sched.model().ready.len() == 0 && timers.model().len() == 0 ==> d
            == PollDecision::BlockForever,
        sched.model().ready.len() == 0 && timers.model().len() > 0 ==> d == (if (
        timers.model()[0].0.nanos <= now.nanos) {
            PollDecision::NoBlock
        } else {
            PollDecision::BlockUntil(timers.model()[0].0)
        }),
{
    if sched.has_ready_process() {
        return PollDecision::NoBlock;
    }
    match timers.next_deadline() {
        Some(deadline) => {
            if deadline.le(&now) {
                PollDecision::NoBlock
            } else {
                PollDecision::BlockUntil(deadline)
            }
        },
        None => PollDecision::BlockForever,
    }
}

/// Remove up to `budget` ready processes, in run order, for the worker to
/// poll.
///
/// The batch comes out in the order the processes are to run — each entry
/// runs before the next — and everything left ready in the scheduler runs
/// after the whole batch. The batch is shorter than `budget` only when the
/// ready set ran dry.
pub fn take_ready_batch<P>(sched: &mut LocalScheduler<P>, budget: usize) -> (batch: Vec<
    Box<ProcessData<P>>,
>)
    requires
        old(sched).wf(),
    ensures
        final(sched).wf(),
        final(sched).spec_next_pid() == old(sched).spec_next_pid(),
        final(sched).model().inactive == old(sched).model().inactive,
        batch@.len() == vstd::math::min(budget as int, old(sched).model().ready.len() as int),
        final(sched).model().ready.len() == old(sched).model().ready.len() - batch@.len(),
        forall|i: int, j: int|
            0 <= i < j < batch@.len() ==> runs_before(*(#[trigger] batch@[i]), *(#[trigger] batch@[j])),
        forall|i: int, j: int|
            0 <= i < batch@.len() && 0 <= j < final(sched).model().ready.len() ==> runs_before(
                *(#[trigger] batch@[i]),
                *(#[trigger] final(sched).model().ready[j]),
            ),
        forall|i: int|
            0 <= i < batch@.len() ==> seq_has_record(old(sched).model().ready, #[trigger] batch@[i]),
        forall|j: int|
            0 <= j < final(sched).model().ready.len() ==> seq_has_record(
                old(sched).model().ready,
                #[trigger] final(sched).model().ready[j],
            ),
{
    let mut batch: Vec<Box<ProcessData<P>>> = Vec::new();
    loop
        invariant
            sched.wf(),
            sched.spec_next_pid() == old(sched).spec_next_pid(),
            sched.model().inactive == old(sched).model().inactive,
            batch@.len() <= budget,
            sched.model().ready.len() == old(sched).model().ready.len() - batch@.len(),
            forall|i: int, j: int|
                0 <= i < j < batch@.len() ==> runs_before(
                    *(#[trigger] batch@[i]),
                    *(#[trigger] batch@[j]),
                ),
            forall|i: int, j: int|
                0 <= i < batch@.len() && 0 <= j < sched.model().ready.len() ==> runs_before(
                    *(#[trigger] batch@[i]),
                    *(#[trigger] sched.model().ready[j]),
                ),
            forall|i: int|
                0 <= i < batch@.len() ==> seq_has_record(
                    old(sched).model().ready,
                    #[trigger] batch@[i],
                ),
            forall|j: int|
                0 <= j < sched.model().ready.len() ==> seq_has_record(
                    old(sched).model().ready,
                    #[trigger] sched.model().ready[j],
                ),
        decreases budget - batch@.len(),
    {
        if batch.len() >= budget {
            return batch;
        }
        let ghost cur = sched.model();
        let ghost cur_batch = batch@;
        match sched.next_process() {
            None => {
                return batch;
            },
            Some(rec) => {
                proof {
                    let idx = crate::scheduler::idx_of_pid(cur.ready, rec.pid.0);
                    assert(0 <= idx < cur.ready.len() && cur.ready[idx] == rec);
                    assert(sched.model().ready =~= cur.ready.remove(idx));
                    assert forall|i: int, j: int|
                        0 <= i < cur_batch.len() && 0 <= j < sched.model().ready.len() implies
                        runs_before(
                        *(#[trigger] cur_batch[i]),
                        *(#[trigger] sched.model().ready[j]),
                    ) by {
                        if j < idx {
                            assert(sched.model().ready[j] == cur.ready[j]);
                        } else {
                            assert(sched.model().ready[j] == cur.ready[j + 1]);
                        }
                    }
                    assert forall|j: int| 0 <= j < sched.model().ready.len() implies runs_before(
                        *rec,
                        *(#[trigger] sched.model().ready[j]),
                    ) by {
                        if j < idx {
                            assert(sched.model().ready[j] == cur.ready[j]);
                            assert(cur.ready[j].pid.0 != rec.pid.0);
                        } else {
                            assert(sched.model().ready[j] == cur.ready[j + 1]);
                            assert(cur.ready[j + 1].pid.0 != rec.pid.0);
                        }
                    }
                    assert forall|i: int| 0 <= i < cur_batch.len() implies runs_before(
                        *(#[trigger] cur_batch[i]),
                        *rec,
                    ) by {
                        assert(runs_before(*cur_batch[i], *cur.ready[idx]));
                    }
                    assert forall|j: int|
                        0 <= j < sched.model().ready.len() implies seq_has_record(
                        old(sched).model().ready,
                        #[trigger] sched.model().ready[j],
                    ) by {
                        if j < idx {
                            assert(sched.model().ready[j] == cur.ready[j]);
                        } else {
                            assert(sched.model().ready[j] == cur.ready[j + 1]);
                        }
                    }
                    assert(seq_has_record(cur.ready, rec));
                }
                batch.push(rec);
            },
        }
    }
}

/// The outcome of the liveness probe of a synchronous actor's thread: the
/// coordinator writes one empty message into the pipe that the thread holds
/// the other end of.
#[derive(Clone, Copy, PartialEq, Eq, Structural, Debug)]
pub enum PipeWrite {
    /// The write went through.
    Wrote,
    /// The pipe is full; the thread still holds its end.
    WouldBlock,
    /// The write failed outright: the thread is gone and its end of the
    /// pipe is closed.
    Failed,
}

/// Whether a synchronous actor's thread is still alive, judged from the
/// liveness probe: only an outright write failure means the thread exited.
pub fn sync_worker_alive(outcome: PipeWrite) -> (alive: bool)
    ensures
        alive == !(outcome is Failed),
{
    match outcome {
        PipeWrite::Wrote => true,
        PipeWrite::WouldBlock => true,
        PipeWrite::Failed => false,
    }
}

} // verus!
