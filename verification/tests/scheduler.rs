//! Tests for the thread-local scheduler.

use std::mem::size_of;

use heph_rt::process::{Priority, ProcessData, ProcessId};
use heph_rt::scheduler::LocalScheduler;
use heph_rt::time::Duration;

/// Stand-in for the work a record carries: the width of a boxed trait
/// object, as the runtime's records hold.
type BoxedWork = Box<dyn Fn() -> ()>;

fn assert_size<T>(expected: usize) {
    assert_eq!(size_of::<T>(), expected);
}

#[test]
fn size_assertions() {
    assert_size::<ProcessData<BoxedWork>>(40);
}

#[derive(Debug)]
struct NopTestProcess;

#[test]
fn has_process() {
    let mut scheduler = LocalScheduler::new();
    assert!(!scheduler.has_process());
    assert!(!scheduler.has_ready_process());

    let pid = scheduler.add_actor();
    let process = Box::new(ProcessData::new(
        pid,
        Priority::default(),
        Duration::from_secs(0),
        NopTestProcess,
    ));
    scheduler.add_process(process);
    assert!(scheduler.has_process());
    assert!(!scheduler.has_ready_process());
}

#[test]
fn add_actor() {
    let mut scheduler = LocalScheduler::new();

    let pid = scheduler.add_actor();
    scheduler.add_new_process(pid, Priority::NORMAL, NopTestProcess, false);
    assert!(scheduler.has_process());
    assert!(!scheduler.has_ready_process());
}

#[test]
fn mark_ready() {
    let mut scheduler = LocalScheduler::new();

    // Incorrect (outdated) pid should be ok.
    scheduler.mark_ready(ProcessId(1));

    let pid = scheduler.add_actor();
    scheduler.add_new_process(pid, Priority::NORMAL, NopTestProcess, false);

    scheduler.mark_ready(pid);
    assert!(scheduler.has_process());
    assert!(scheduler.has_ready_process());
}

#[test]
fn next_process() {
    let mut scheduler = LocalScheduler::new();

    let pid = scheduler.add_actor();
    scheduler.add_new_process(pid, Priority::NORMAL, NopTestProcess, false);
    scheduler.mark_ready(pid);

    if let Some(process) = scheduler.next_process() {
        assert_eq!(process.id(), pid);
        assert!(!scheduler.has_process());
        assert!(!scheduler.has_ready_process());
    } else {
        panic!("expected a process");
    }
}

#[test]
fn next_process_order() {
    let mut scheduler = LocalScheduler::new();

    // Actor 1.
    let pid1 = scheduler.add_actor();
    scheduler.add_new_process(pid1, Priority::LOW, NopTestProcess, true);
    // Actor 2.
    let pid2 = scheduler.add_actor();
    scheduler.add_new_process(pid2, Priority::HIGH, NopTestProcess, true);
    // Actor 3.
    let pid3 = scheduler.add_actor();
    scheduler.add_new_process(pid3, Priority::NORMAL, NopTestProcess, true);

    assert!(scheduler.has_process());
    assert!(scheduler.has_ready_process());

    // Process 2 has a higher priority, should be scheduled first.
    let process2 = scheduler.next_process().unwrap();
    assert_eq!(process2.id(), pid2);
    let process3 = scheduler.next_process().unwrap();
    assert_eq!(process3.id(), pid3);
    let process1 = scheduler.next_process().unwrap();
    assert_eq!(process1.id(), pid1);

    assert!(process1 < process2);
    assert!(process1 < process3);
    assert!(process2 > process1);
    assert!(process2 > process3);
    assert!(process3 > process1);
    assert!(process3 < process2);

    assert_eq!(scheduler.next_process(), None);
}

#[test]
fn add_process() {
    let mut scheduler = LocalScheduler::new();

    let pid = scheduler.add_actor();
    scheduler.add_new_process(pid, Priority::NORMAL, NopTestProcess, false);

    assert!(scheduler.next_process().is_none());
    assert!(scheduler.has_process());
    assert!(!scheduler.has_ready_process());

    scheduler.mark_ready(pid);
    assert!(scheduler.has_process());
    assert!(scheduler.has_ready_process());
    let process = scheduler.next_process().unwrap();
    assert_eq!(process.id(), pid);
}

#[test]
fn add_process_marked_ready() {
    let mut scheduler = LocalScheduler::new();

    let pid = scheduler.add_actor();
    scheduler.add_new_process(pid, Priority::NORMAL, NopTestProcess, true);

    let process = scheduler.next_process().unwrap();
    scheduler.add_process(process);
    assert!(scheduler.has_process());
    assert!(!scheduler.has_ready_process());

    scheduler.mark_ready(pid);
    assert!(scheduler.has_process());
    assert!(scheduler.has_ready_process());
    let process = scheduler.next_process().unwrap();
    assert_eq!(process.id(), pid);
}

#[test]
fn scheduler_run_order() {
    let mut scheduler = LocalScheduler::new();

    // The order in which the processes have been run.
    let mut run_order = Vec::new();

    // Add our processes: the payload is the id each would report.
    let priorities = [Priority::LOW, Priority::NORMAL, Priority::HIGH];
    let mut pids = vec![];
    for (id, priority) in priorities.iter().enumerate() {
        let pid = scheduler.add_actor();
        pids.push(pid);
        scheduler.add_new_process(pid, *priority, id, true);
    }

    assert!(scheduler.has_process());
    assert!(scheduler.has_ready_process());

    // Run all processes, should be in order of priority (since their
    // runtimes are equal).
    for _ in 0..3 {
        let process = scheduler.next_process().unwrap();
        run_order.push(process.into_payload());
    }
    assert!(!scheduler.has_process());
    assert_eq!(run_order, vec![2usize, 1, 0]);
}

#[test]
fn assert_process_unmoved() {
    let mut scheduler = LocalScheduler::new();

    let pid = scheduler.add_actor();
    scheduler.add_new_process(pid, Priority::NORMAL, NopTestProcess, true);

    // Take the process out and put it back multiple times: the record must
    // never move in memory while it lives.
    let process = scheduler.next_process().unwrap();
    let address = format!("{:p}", &*process);
    scheduler.add_process(process);

    scheduler.mark_ready(pid);
    let process = scheduler.next_process().unwrap();
    assert_eq!(format!("{:p}", &*process), address);
    scheduler.add_process(process);

    scheduler.mark_ready(pid);
    let process = scheduler.next_process().unwrap();
    assert_eq!(format!("{:p}", &*process), address);
}

#[test]
fn mark_ready_is_idempotent() {
    let mut scheduler = LocalScheduler::new();

    let pid = scheduler.add_actor();
    scheduler.add_new_process(pid, Priority::NORMAL, NopTestProcess, false);

    scheduler.mark_ready(pid);
    scheduler.mark_ready(pid);
    assert!(scheduler.has_ready_process());

    // Marking twice queued the record once: one pop drains the ready set.
    let process = scheduler.next_process().unwrap();
    assert_eq!(process.id(), pid);
    assert!(scheduler.next_process().is_none());
    assert!(!scheduler.has_process());
}

#[test]
fn spawn_then_stop_leaves_scheduler_empty() {
    let mut scheduler = LocalScheduler::new();
    assert!(!scheduler.has_process());

    let n = 10;
    for _ in 0..n {
        let pid = scheduler.add_actor();
        scheduler.add_new_process(pid, Priority::NORMAL, NopTestProcess, true);
    }
    assert!(scheduler.has_process());

    // Stop every actor: pop it and drop its record.
    for _ in 0..n {
        let process = scheduler.next_process().unwrap();
        drop(process);
    }
    assert!(!scheduler.has_process());
    assert!(!scheduler.has_ready_process());
    assert!(scheduler.next_process().is_none());
}

#[test]
fn new_process_starts_at_minimum_fair_runtime() {
    let mut scheduler = LocalScheduler::new();

    let pid1 = scheduler.add_actor();
    scheduler.add_new_process(pid1, Priority::NORMAL, NopTestProcess, true);

    // Age the first process: it accumulates virtual runtime and goes back.
    let mut process = scheduler.next_process().unwrap();
    process.update_fair_runtime(&Duration::new(3, 500));
    let aged = process.fair_runtime();
    assert_eq!(aged, Duration::new(6, 1000));
    scheduler.add_process(process);
    scheduler.mark_ready(pid1);

    // A newcomer starts from the minimum over the ready records, so it does
    // not starve, and does not monopolise either.
    let pid2 = scheduler.add_actor();
    scheduler.add_new_process(pid2, Priority::NORMAL, NopTestProcess, true);
    let first = scheduler.next_process().unwrap();
    assert_eq!(first.fair_runtime(), aged);
    // Equal fair runtime and equal priority: the tie falls to the lower pid.
    assert_eq!(first.id(), pid1);
    let second = scheduler.next_process().unwrap();
    assert_eq!(second.id(), pid2);
    assert_eq!(second.fair_runtime(), aged);
}

#[test]
fn try_spawn_success_and_factory_error() {
    let mut scheduler = LocalScheduler::new();

    // A factory that succeeds: the actor is installed and ready.
    let spawned = scheduler.try_spawn(Priority::NORMAL, true, |_pid| Ok::<_, String>(NopTestProcess));
    let pid = spawned.unwrap();
    assert!(scheduler.has_ready_process());
    let process = scheduler.next_process().unwrap();
    assert_eq!(process.id(), pid);

    // A factory that refuses: the error comes back to the spawner and
    // nothing is installed.
    let failed: Result<_, String> =
        scheduler.try_spawn(Priority::NORMAL, true, |_pid| Err(String::from("out of fuel")));
    assert_eq!(failed.unwrap_err(), "out of fuel");
    assert!(!scheduler.has_process());

    // The identifier reserved for the failed spawn never names a record:
    // marking it ready stays a harmless no-op.
    scheduler.mark_ready(ProcessId(1));
    assert!(!scheduler.has_process());
    assert!(!scheduler.has_ready_process());
}

#[test]
fn memory_stress_registration() {
    // Many thread-local actors, none of them ready: all must be registered
    // without being polled, each record staying small.
    assert!(size_of::<ProcessData<()>>() <= 40);

    let n: u32 = 10_000_000;
    let mut scheduler = LocalScheduler::new();
    for _ in 0..n {
        let pid = scheduler.add_actor();
        scheduler.add_new_process(pid, Priority::NORMAL, (), false);
    }
    assert!(scheduler.has_process());
    assert!(!scheduler.has_ready_process());
    assert!(scheduler.next_process().is_none());
}
