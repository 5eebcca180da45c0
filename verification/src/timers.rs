//! Per-worker deadline bookkeeping.
//!
//! A worker keeps the deadlines of its processes in one ordered structure:
//! pairs of an [`Instant`] and the [`ProcessId`] to wake when that instant
//! has passed. Deadlines are never actively removed: a deadline whose
//! process no longer listens simply fires as a harmless extra wake. Adding a
//! second deadline for one process queues both.

use vstd::prelude::*;

use crate::process::ProcessId;
use crate::time::Instant;

verus! {

/// Deadlines are kept ascending; among equal instants, in arrival order.
pub open spec fn deadlines_sorted(s: Seq<(Instant, ProcessId)>) -> bool {
    forall|i: int, j: int|
        0 <= i <= j < s.len() ==> (#[trigger] s[i]).0.nanos <= (#[trigger] s[j]).0.nanos
}

/// The deadlines of one worker's processes.
pub struct Timers {
    /// Pairs of a deadline and the process to wake, ascending by deadline.
    deadlines: Vec<(Instant, ProcessId)>,
}

impl Timers {
    /// The deadlines, ascending.
    pub closed spec fn model(self) -> Seq<(Instant, ProcessId)> {
        self.deadlines@
    }

    /// The structure's invariant: deadlines are kept ascending.
    pub open spec fn wf(self) -> bool {
        deadlines_sorted(self.model())
    }

    /// No deadlines at all.
    pub fn new() -> (t: Timers)
        ensures
            t.wf(),
            t.model().len() == 0,
    {
        Timers { deadlines: Vec::new() }
    }

    /// Where a new deadline belongs: after every deadline no later than it,
    /// before every strictly later one.
    fn insertion_index(&self, deadline: Instant) -> (k: usize)
        requires
            self.wf(),
        ensures
            0 <= k <= self.model().len(),
            forall|i: int| 0 <= i < k ==> (#[trigger] self.model()[i]).0.nanos <= deadline.nanos,
            forall|i: int|
                k <= i < self.model().len() ==> (#[trigger] self.model()[i]).0.nanos > deadline.nanos,
    {
        let mut k: usize = 0;
        while k < self.deadlines.len()
            invariant
                self.wf(),
                0 <= k <= self.deadlines@.len(),
                forall|i: int| 0 <= i < k ==> (#[trigger] self.deadlines@[i]).0.nanos <= deadline.nanos,
            decreases self.deadlines@.len() - k,
        {
            if !self.deadlines[k].0.le(&deadline) {
                proof {
                    assert forall|i: int|
                        k <= i < self.model().len() implies (#[trigger] self.model()[i]).0.nanos
                        > deadline.nanos by {
                        assert(self.model()[k as int].0.nanos <= self.model()[i].0.nanos);
                    }
                }
                return k;
            }
            k = k + 1;
        }
        k
    }

    /// Add a deadline for the process with id `pid`.
    ///
    /// A process may accumulate several deadlines; whichever fires first
    /// wakes it, the others fire later as harmless extra wakes.
    pub fn add_deadline(&mut self, pid: ProcessId, deadline: Instant)
        requires
            old(self).wf(),
        ensures
            final(self).wf(),
            exists|i: int|
                {
                    &&& 0 <= i <= old(self).model().len()
                    &&& final(self).model() == #[trigger] old(self).model().insert(
                        i,
                        (deadline, pid),
                    )
                },
            final(self).model().len() == old(self).model().len() + 1,
    {
        let k = self.insertion_index(deadline);
        let ghost m0 = self.model();
        let ghost ins = k as int;
        self.deadlines.insert(k, (deadline, pid));
        proof {
            assert forall|i: int, j: int|
                0 <= i <= j < self.deadlines@.len() implies (#[trigger] self.deadlines@[i]).0.nanos
                <= (#[trigger] self.deadlines@[j]).0.nanos by {
                let s = self.deadlines@;
                if i < ins && j == ins {
                    assert(s[i] == m0[i]);
                } else if i == ins && j > ins {
                    assert(s[j] == m0[j - 1]);
                } else if i < ins && j > ins {
                    assert(s[i] == m0[i] && s[j] == m0[j - 1]);
                } else if i > ins && j > ins {
                    assert(s[i] == m0[i - 1] && s[j] == m0[j - 1]);
                } else if i < ins && j < ins {
                    assert(s[i] == m0[i] && s[j] == m0[j]);
                }
            }
        }
    }

    /// The earliest deadline on record, used as the worker's poll timeout
    /// hint; `None` when no deadline is pending.
    pub fn next_deadline(&self) -> (r: Option<Instant>)
        requires
            self.wf(),
        ensures
            match r {
                None => self.model().len() == 0,
                Some(d) => {
                    &&& self.model().len() > 0
                    &&& d == self.model()[0].0
                    &&& forall|i: int|
                        0 <= i < self.model().len() ==> d.nanos <= (#[trigger] self.model()[i]).0.nanos
                },
            },
    {
        if self.deadlines.len() == 0 {
            None
        } else {
            Some(self.deadlines[0].0)
        }
    }

    /// Remove every deadline that has passed at `now` and return the ids of
    /// the processes to wake, in deadline order.
    ///
    /// Every deadline no later than `now` fires in this call — a deadline
    /// set for the past therefore fires on the very next expiry pass, never
    /// later — and every deadline still pending afterwards lies strictly
    /// after `now`.
    pub fn expire(&mut self, now: Instant) -> (fired: Vec<ProcessId>)
        requires
            old(self).wf(),
        ensures
            final(self).wf(),
            fired@.len() <= old(self).model().len(),
            final(self).model() == old(self).model().skip(fired@.len() as int),
            forall|i: int|
                0 <= i < fired@.len() ==> fired@[i] == (#[trigger] old(self).model()[i]).1,
            forall|i: int|
                0 <= i < fired@.len() ==> (#[trigger] old(self).model()[i]).0.nanos <= now.nanos,
            forall|i: int|
                0 <= i < final(self).model().len() ==> (#[trigger] final(
                self).model()[i]).0.nanos > now.nanos,
    {
        let mut fired: Vec<ProcessId> = Vec::new();
        loop
            invariant
                self.wf(),
                fired@.len() <= old(self).model().len(),
                self.model() == old(self).model().skip(fired@.len() as int),
                forall|i: int|
                    0 <= i < fired@.len() ==> fired@[i] == (#[trigger] old(self).model()[i]).1,
                forall|i: int|
                    0 <= i < fired@.len() ==> (#[trigger] old(self).model()[i]).0.nanos <= now.nanos,
            decreases self.deadlines@.len(),
        {
            if self.deadlines.len() == 0 {
                return fired;
            }
            if !self.deadlines[0].0.le(&now) {
                proof {
                    assert forall|i: int|
                        0 <= i < self.model().len() implies (#[trigger] self.model()[i]).0.nanos
                        > now.nanos by {
                        assert(self.model()[0].0.nanos <= self.model()[i].0.nanos);
                    }
                }
                return fired;
            }
            let ghost before = self.model();
            let entry = self.deadlines.remove(0);
            fired.push(entry.1);
            proof {
                assert(self.model() =~= before.skip(1));
                assert(self.model() =~= old(self).model().skip(fired@.len() as int));
            }
        }
    }
}

} // verus!
