//! The wake path: a compact waker encoding and the per-worker wake sinks.
//!
//! A wake request carries two pieces of information — which worker to poke
//! and which process to mark ready — packed into a single word
//! ([`WakerData`]): the 32 least significant bits hold the process id, the
//! next 8 bits the worker's [`WakerId`], and the rest stay clear.
//!
//! Each worker owns one [`ThreadWaker`]: a channel on which process ids are
//! delivered, a flag that coalesces interruptions, and a handle that
//! interrupts the worker's blocking poll. However many wakes arrive between
//! two polls, at most one reaches the operating system; the model of that
//! flag and its law live at the bottom of this module.

use vstd::prelude::*;

use core::sync::atomic::{AtomicBool, Ordering};

use crate::process::ProcessId;

verus! {

/// Maximum number of worker threads a waker table can serve.
pub const MAX_THREADS: usize = 64;

/// An id for a per-worker wake sink: an index into the [`WakerTable`].
#[derive(Clone, Copy, PartialEq, Eq, Structural, Debug, Hash)]
pub struct WakerId(pub u8);

/// Number of low bits of a [`WakerData`] word holding the process id.
pub const PID_BITS: u64 = 32;

/// Mask of the low bits of a [`WakerData`] word holding the process id.
pub const PID_MASK: u64 = 0xFFFF_FFFF;

/// A worker id and a process id, packed into one word.
pub open spec fn spec_encode(waker_id: u8, pid: u32) -> u64 {
    ((waker_id as u64) << PID_BITS) | (pid as u64)
}

/// The worker id held in an encoded word.
pub open spec fn spec_decode_waker_id(data: u64) -> u8 {
    ((data >> PID_BITS) & 0xFF) as u8
}

/// The process id held in an encoded word.
pub open spec fn spec_decode_pid(data: u64) -> u32 {
    (data & PID_MASK) as u32
}

/// Waker data passed through the task system as a single word.
///
/// Clone and drop of a waker built on this are no-ops: the word is `Copy`
/// and owns nothing.
#[derive(Clone, Copy, PartialEq, Eq, Structural, Debug, Hash)]
pub struct WakerData {
    /// The packed word.
    pub data: u64,
}

impl WakerData {
    /// Only the low 40 bits are in use.
    pub open spec fn is_valid(self) -> bool {
        self.data < 0x100_0000_0000u64
    }

    /// Pack a worker id and a process id into one word.
    pub fn new(waker_id: WakerId, pid: ProcessId) -> (r: WakerData)
        ensures
            r.is_valid(),
            r.data == spec_encode(waker_id.0, pid.0),
            spec_decode_waker_id(r.data) == waker_id.0,
            spec_decode_pid(r.data) == pid.0,
    {
        let data: u64 = ((waker_id.0 as u64) << PID_BITS) | (pid.0 as u64);
        proof {
            let w = waker_id.0;
            let p = pid.0;
            assert(((w as u64) << 32u64) | (p as u64) < 0x100_0000_0000u64) by (bit_vector);
            assert((((((w as u64) << 32u64) | (p as u64)) >> 32u64) & 0xFF) as u8 == w)
                by (bit_vector);
            assert(((((w as u64) << 32u64) | (p as u64)) & 0xFFFF_FFFFu64) as u32 == p)
                by (bit_vector);
        }
        WakerData { data }
    }

    /// The worker id packed into this word.
    pub fn waker_id(self) -> (r: WakerId)
        ensures
            r.0 == spec_decode_waker_id(self.data),
    {
        WakerId(((self.data >> PID_BITS) & 0xFF) as u8)
    }

    /// The process id packed into this word.
    pub fn pid(self) -> (r: ProcessId)
        ensures
            r.0 == spec_decode_pid(self.data),
    {
        ProcessId((self.data & PID_MASK) as u32)
    }
}

/// Law: packing a worker id and a process id and unpacking them returns
/// exactly the ids that went in, for every pair of ids.
pub proof fn lemma_waker_data_roundtrip(waker_id: WakerId, pid: ProcessId)
    ensures
        spec_decode_waker_id(spec_encode(waker_id.0, pid.0)) == waker_id.0,
        spec_decode_pid(spec_encode(waker_id.0, pid.0)) == pid.0,
{
    let w = waker_id.0;
    let p = pid.0;
    assert((((((w as u64) << 32u64) | (p as u64)) >> 32u64) & 0xFF) as u8 == w) by (bit_vector);
    assert(((((w as u64) << 32u64) | (p as u64)) & 0xFFFF_FFFFu64) as u32 == p) by (bit_vector);
}

/// Declares `crossbeam_channel::Sender`, the sending half of a worker's
/// wake channel; opaque here, used only through [`try_send_wake`].
#[verifier::external_type_specification]
#[verifier::external_body]
#[verifier::reject_recursive_types(T)]
pub struct ExSender<T>(crossbeam_channel::Sender<T>);

/// Declares `mio::Waker`, the handle interrupting a worker's blocking poll;
/// opaque here, used only through [`os_wake`].
#[verifier::external_type_specification]
#[verifier::external_body]
pub struct ExMioWaker(mio::Waker);

/// Relies on `crossbeam_channel::Sender::try_send`: hands `pid` to the
/// worker's wake channel without blocking; reports whether the channel took
/// it (an unbounded channel refuses only when the receiver is gone).
#[verifier::external_body]
fn try_send_wake(notifications: &crossbeam_channel::Sender<u32>, pid: u32) -> (ok: bool) {
    notifications.try_send(pid).is_ok()
}

/// Relies on `mio::Waker::wake`: interrupts the worker's blocking poll once;
/// reports whether the operating system accepted the request.
#[verifier::external_body]
fn os_wake(waker: &mio::Waker) -> (ok: bool) {
    waker.wake().is_ok()
}

/// One worker's wake sink.
pub struct ThreadWaker {
    /// Wake deliveries: the worker drains this channel and marks each
    /// delivered process id ready.
    notifications: crossbeam_channel::Sender<u32>,
    /// Whether the worker's poll was already interrupted since it last
    /// returned; coalesces interruptions, see [`wake_step`].
    awoken: AtomicBool,
    /// Handle interrupting the worker's blocking poll.
    waker: mio::Waker,
}

impl ThreadWaker {
    /// Wake up the process with id `pid` on this worker: deliver the id on
    /// the wake channel and, when this worker has not been interrupted since
    /// its last poll, interrupt it once.
    ///
    /// Other threads share this sink, so nothing can be promised of the
    /// flag's value; the sequential content of this decision is [`wake_step`]
    /// and its law [`lemma_wake_coalescing`].
    pub fn wake(&self, pid: ProcessId) {
        if !try_send_wake(&self.notifications, pid.0) {
            return ;
        }
        if !self.awoken.load(Ordering::Relaxed) {
            if !os_wake(&self.waker) {
                return ;
            }
            self.awoken.store(true, Ordering::Release);
        }
    }

    /// Mark this worker as recently polled: the next wake may interrupt it
    /// again.
    pub fn mark_polled(&self) {
        self.awoken.store(false, Ordering::Release);
    }
}

/// The process-wide table of per-worker wake sinks: one slot per worker,
/// written once at worker start-up and read-only afterwards.
pub struct WakerTable {
    /// The sinks, indexed by [`WakerId`].
    slots: Vec<ThreadWaker>,
}

impl WakerTable {
    /// The initialised wake sinks, by worker id.
    pub closed spec fn spec_slots(self) -> Seq<ThreadWaker> {
        self.slots@
    }

    /// How many workers have been initialised.
    pub open spec fn spec_len(self) -> nat {
        self.spec_slots().len()
    }

    /// Create an empty table.
    pub fn new() -> (t: WakerTable)
        ensures
            t.spec_len() == 0,
    {
        WakerTable { slots: Vec::new() }
    }

    /// Initialise the wake sink of a new worker and hand back its id.
    ///
    /// Refuses once [`MAX_THREADS`] workers have been initialised.
    pub fn init_waker(
        &mut self,
        waker: mio::Waker,
        notifications: crossbeam_channel::Sender<u32>,
    ) -> (r: Option<WakerId>)
        ensures
            old(self).spec_len() < MAX_THREADS ==> {
                &&& r == Some(WakerId(old(self).spec_len() as u8))
                &&& final(self).spec_len() == old(self).spec_len() + 1
                &&& forall|i: int|
                    0 <= i < old(self).spec_len() ==> #[trigger] final(self).spec_slots()[i] == old(
                    self).spec_slots()[i]
            },
            old(self).spec_len() >= MAX_THREADS ==> {
                &&& r is None
                &&& *final(self) == *old(self)
            },
    {
        if self.slots.len() >= MAX_THREADS {
            return None;
        }
        let id = WakerId(self.slots.len() as u8);
        self.slots.push(ThreadWaker { notifications, awoken: AtomicBool::new(false), waker });
        Some(id)
    }

    /// How many workers have been initialised.
    pub fn len(&self) -> (n: usize)
        ensures
            n == self.spec_len(),
    {
        self.slots.len()
    }

    /// Borrow the wake sink of the worker with id `waker_id`: exactly the
    /// slot that worker's initialisation filled, so wakes for it reach no
    /// other worker.
    pub fn get_waker(&self, waker_id: WakerId) -> (r: &ThreadWaker)
        requires
            (waker_id.0 as nat) < self.spec_len(),
        ensures
            *r == self.spec_slots()[waker_id.0 as int],
    {
        &self.slots[waker_id.0 as usize]
    }

    /// Wake up the process with id `pid` on the worker with id `waker_id`,
    /// see [`ThreadWaker::wake`].
    pub fn wake(&self, waker_id: WakerId, pid: ProcessId)
        requires
            (waker_id.0 as nat) < self.spec_len(),
    {
        self.get_waker(waker_id).wake(pid)
    }

    /// Mark the worker with id `waker_id` as recently polled, see
    /// [`ThreadWaker::mark_polled`].
    pub fn mark_polled(&self, waker_id: WakerId)
        requires
            (waker_id.0 as nat) < self.spec_len(),
    {
        self.get_waker(waker_id).mark_polled()
    }
}

/// One wake event against the coalescing flag: returns whether the worker's
/// poll is interrupted, and the flag afterwards. The poll is interrupted
/// exactly when the flag was clear, and the flag is set afterwards either
/// way.
pub open spec fn wake_step(awoken: bool) -> (bool, bool) {
    (!awoken, true)
}

/// How many interruptions `n` consecutive wake events issue, starting from
/// the given flag.
pub open spec fn interrupts_of(awoken: bool, n: nat) -> nat
    decreases n,
{
    if n == 0 {
        0
    } else {
        (if wake_step(awoken).0 {
            1nat
        } else {
            0nat
        }) + interrupts_of(wake_step(awoken).1, (n - 1) as nat)
    }
}

/// Law: between two polls — the flag starts clear after the worker marks
/// itself polled — any number of wake events issues at most one
/// interruption of the worker's poll, and exactly one as soon as there is
/// any wake at all.
pub proof fn lemma_wake_coalescing(n: nat)
    ensures
        interrupts_of(false, n) == if n == 0 {
            0nat
        } else {
            1nat
        },
{
    if n > 0 {
        lemma_wake_coalescing_set(( n - 1 ) as nat);
    }
}

/// Once the flag is set, further wake events issue no interruption at all.
proof fn lemma_wake_coalescing_set(n: nat)
    ensures
        interrupts_of(true, n) == 0,
    decreases n,
{
    if n > 0 {
        lemma_wake_coalescing_set((n - 1) as nat);
    }
}

} // verus!
