//! Runtime configuration: how many worker threads to start, and the process
//! signals the runtime relays to subscribed actors.
//!
//! The threads themselves, the OS poller and signal handling live outside
//! this crate; what is decided here is the configuration they start from,
//! with its one hard limit: no more than [`MAX_THREADS`] workers, since the
//! waker table has that many slots.

use vstd::prelude::*;

use crate::process::Priority;
use crate::waker::MAX_THREADS;

verus! {

/// A process signal relayed to subscribed actors.
#[derive(Clone, Copy, PartialEq, Eq, Structural, Debug, Hash)]
pub enum Signal {
    /// The process was asked to be interrupted.
    Interrupt,
    /// The process was asked to terminate.
    Terminate,
    /// The process was asked to quit.
    Quit,
}

/// The runtime under construction: its configuration before any worker
/// thread starts.
#[derive(Clone, Copy, PartialEq, Eq, Structural, Debug)]
pub struct Runtime {
    /// Number of worker threads to start.
    threads: usize,
}

impl Runtime {
    /// Number of worker threads to start.
    pub closed spec fn spec_threads(self) -> usize {
        self.threads
    }

    /// Create a runtime configuration with the default of one worker thread.
    pub fn new() -> (r: Runtime)
        ensures
            r.spec_threads() == 1,
    {
        Runtime { threads: 1 }
    }

    /// Set the number of worker threads.
    ///
    /// More than [`MAX_THREADS`] workers cannot be served; use
    /// [`Runtime::try_num_threads`] when the count is not known to be within
    /// the limit.
    pub fn num_threads(self, n: usize) -> (r: Runtime)
        requires
            n <= MAX_THREADS,
        ensures
            r.spec_threads() == n,
    {
        Runtime { threads: n }
    }

    /// Set the number of worker threads, refusing a count the runtime
    /// cannot serve: the configuration comes back exactly when
    /// `n <= MAX_THREADS`, and construction fails for every larger count.
    pub fn try_num_threads(self, n: usize) -> (r: Option<Runtime>)
        ensures
            n <= MAX_THREADS ==> (r matches Some(c) && c.spec_threads() == n),
            n > MAX_THREADS ==> r is None,
    {
        if n <= MAX_THREADS {
            Some(Runtime { threads: n })
        } else {
            None
        }
    }

    /// Set the number of worker threads to the number of processor cores.
    ///
    /// More workers than [`MAX_THREADS`] is a hard error: on a machine with
    /// more cores than that the configuration is refused, and the caller
    /// fails construction rather than silently running on fewer cores.
    pub fn use_all_cores(self) -> (r: Option<Runtime>)
        ensures
            r matches Some(c) ==> 1 <= c.spec_threads() <= MAX_THREADS,
    {
        let n = cpu_count();
        self.try_num_threads(n)
    }

    /// The number of worker threads this configuration starts.
    pub fn threads(&self) -> (n: usize)
        ensures
            n == self.spec_threads(),
    {
        self.threads
    }
}

/// Options for spawning an actor: its priority and whether its process
/// starts in the ready set.
#[derive(Clone, Copy, PartialEq, Eq, Structural, Debug)]
pub struct ActorOptions {
    /// The priority of the actor's process.
    priority: Priority,
    /// Whether the process enters the ready set at once; an actor spawned
    /// not-ready waits for its first wake-up.
    ready: bool,
}

impl Default for ActorOptions {
    /// By default an actor runs at normal priority and starts ready.
    fn default() -> (r: ActorOptions)
        ensures
            r.spec_priority() == Priority::Normal,
            r.spec_ready(),
    {
        ActorOptions { priority: Priority::Normal, ready: true }
    }
}

impl ActorOptions {
    /// The priority of the actor's process.
    pub closed spec fn spec_priority(self) -> Priority {
        self.priority
    }

    /// Whether the process starts in the ready set.
    pub closed spec fn spec_ready(self) -> bool {
        self.ready
    }

    /// The priority of the actor's process.
    pub fn priority(&self) -> (p: Priority)
        ensures
            p == self.spec_priority(),
    {
        self.priority
    }

    /// Set the priority of the actor's process.
    pub fn with_priority(self, priority: Priority) -> (r: ActorOptions)
        ensures
            r.spec_priority() == priority,
            r.spec_ready() == self.spec_ready(),
    {
        ActorOptions { priority, ready: self.ready }
    }

    /// Whether the process starts in the ready set.
    pub fn is_ready(&self) -> (r: bool)
        ensures
            r == self.spec_ready(),
    {
        self.ready
    }

    /// Set whether the process starts in the ready set.
    pub fn mark_ready(self, ready: bool) -> (r: ActorOptions)
        ensures
            r.spec_ready() == ready,
            r.spec_priority() == self.spec_priority(),
    {
        ActorOptions { priority: self.priority, ready }
    }
}

/// Options for spawning a synchronous actor: the name its thread carries.
#[derive(Clone, Debug, Default)]
pub struct SyncActorOptions {
    /// The thread's name; the runtime makes one up when none is given.
    thread_name: Option<String>,
}

impl SyncActorOptions {
    /// The configured thread name, if any.
    pub closed spec fn spec_thread_name(self) -> Option<String> {
        self.thread_name
    }

    /// Name the thread the actor runs on.
    pub fn with_thread_name(self, name: String) -> (r: SyncActorOptions)
        ensures
            r.spec_thread_name() == Some(name),
    {
        SyncActorOptions { thread_name: Some(name) }
    }

    /// Hand out the configured thread name, if any.
    pub fn take_name(self) -> (r: Option<String>)
        ensures
            r == self.spec_thread_name(),
    {
        self.thread_name
    }
}

/// The overall outcome of a set of workers: fine when every worker was
/// fine, and otherwise the error of the first worker that failed, as the
/// runtime reports to its caller.
pub fn first_error<E>(results: Vec<Result<(), E>>) -> (r: Result<(), E>)
    ensures
        r is Ok <==> (forall|i: int| 0 <= i < results@.len() ==> (#[trigger] results@[i]) is Ok),
        r matches Err(e) ==> exists|i: int|
            {
                &&& 0 <= i < results@.len()
                &&& #[trigger] results@[i] == Err::<(), E>(e)
                &&& forall|j: int| 0 <= j < i ==> (#[trigger] results@[j]) is Ok
            },
{
    let mut remaining = results;
    let ghost all = remaining@;
    let total = remaining.len();
    proof {
        assert(all.len() == total);
    }
    let mut k: usize = 0;
    loop
        invariant
            all == results@,
            all.len() <= usize::MAX,
            remaining@ == all.skip(k as int),
            0 <= k <= all.len(),
            forall|j: int| 0 <= j < k ==> (#[trigger] all[j]) is Ok,
        decreases remaining@.len(),
    {
        if remaining.len() == 0 {
            proof {
                assert(k == all.len());
            }
            return Ok(());
        }
        let ghost before = remaining@;
        let head = remaining.remove(0);
        match head {
            Ok(()) => {
                proof {
                    assert(before[0] == all[k as int]);
                    assert(remaining@ =~= before.skip(1));
                    assert(remaining@ =~= all.skip(k + 1));
                }
                k = k + 1;
            },
            Err(error) => {
                proof {
                    assert(before[0] == all[k as int]);
                    assert(results@[k as int] == Err::<(), E>(error));
                }
                return Err(error);
            },
        }
    }
}

/// Relies on `num_cpus::get`: the number of processor cores available to
/// this process; its documentation promises the count is never zero.
#[verifier::external_body]
fn cpu_count() -> (n: usize)
    ensures
        n >= 1,
{
    num_cpus::get()
}

} // verus!
