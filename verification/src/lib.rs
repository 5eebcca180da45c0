//! Core of an actor runtime: a priority-weighted, virtual-runtime-ordered
//! scheduler over heap-allocated process records, a compact waker encoding a
//! worker id and a process id in one word, per-worker deadline bookkeeping,
//! and the supervision protocol deciding what happens after an actor fails.
//!
//! The worker event loops, the OS poller, and the threads hosting
//! synchronous actors live outside this crate; this crate holds the data
//! structures and the decisions they run on, each with its contract.

pub mod process;
pub mod rt;
pub mod scheduler;
pub mod shared;
pub mod supervisor;
pub mod sync;
pub mod time;
pub mod timer;
pub mod timers;
pub mod waker;
pub mod worker;
