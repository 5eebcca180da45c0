//! Tests for the shared (work-stealing) scheduler.

use std::mem::size_of;

use heph_rt::process::{Priority, ProcessData, ProcessId};
use heph_rt::shared::Scheduler;

/// Stand-in for the work a record carries: the width of a boxed trait
/// object, as the runtime's records hold.
type BoxedWork = Box<dyn Fn() -> ()>;

fn assert_size<T>(expected: usize) {
    assert_eq!(size_of::<T>(), expected);
}

fn assert_send<T: Send>() {}

#[derive(Debug)]
struct NopTestProcess;

#[test]
fn tests_size_assertions() {
    assert_size::<ProcessData<BoxedWork>>(40);
}

#[test]
fn is_send() {
    assert_send::<Scheduler<NopTestProcess>>();
}

#[test]
fn adding_actor() {
    let mut scheduler = Scheduler::new();

    // Shouldn't run any process yet, since none are added.
    assert!(!scheduler.has_process());
    assert!(!scheduler.has_ready_process());
    assert_eq!(scheduler.remove(), None);

    // Add an actor to the scheduler.
    let pid = scheduler.add_actor();
    scheduler.add_new_process(pid, Priority::NORMAL, NopTestProcess, false);

    // Newly added processes aren't ready by default.
    assert!(scheduler.has_process());
    assert!(!scheduler.has_ready_process());
    assert_eq!(scheduler.remove(), None);

    // After scheduling the process should be ready to run.
    scheduler.mark_ready(pid);
    assert!(scheduler.has_process());
    assert!(scheduler.has_ready_process());
    let process = scheduler.remove().unwrap();
    assert_eq!(process.id(), pid);

    // After the process is run, and complete, it should be removed.
    assert!(!scheduler.has_process());
    assert!(!scheduler.has_ready_process());
    assert_eq!(scheduler.remove(), None);
    assert!(!scheduler.has_process());
    assert!(!scheduler.has_ready_process());

    // Adding the process back means its not ready.
    scheduler.add_process(process);
    assert!(scheduler.has_process());
    assert!(!scheduler.has_ready_process());
    assert_eq!(scheduler.remove(), None);

    // Marking the same process as ready again.
    scheduler.mark_ready(pid);
    assert!(scheduler.has_process());
    assert!(scheduler.has_ready_process());
    let process = scheduler.remove().unwrap();
    assert_eq!(process.id(), pid);
}

#[test]
fn marking_unknown_pid_as_ready() {
    let mut scheduler: Scheduler<NopTestProcess> = Scheduler::new();

    assert!(!scheduler.has_process());
    assert!(!scheduler.has_ready_process());
    assert_eq!(scheduler.remove(), None);

    // Scheduling an unknown process should do nothing.
    scheduler.mark_ready(ProcessId(0));
    assert!(!scheduler.has_process());
    assert!(!scheduler.has_ready_process());
    assert_eq!(scheduler.remove(), None);
}

// With no record at all present, the scheduler stays inert whatever id is
// marked ready.
#[test]
fn marking_unknown_pid_many_times() {
    let mut scheduler = Scheduler::<NopTestProcess>::new();
    for pid in [0u32, 1, 7, u32::MAX] {
        scheduler.mark_ready(ProcessId(pid));
        assert!(!scheduler.has_process());
        assert!(!scheduler.has_ready_process());
    }
}

#[test]
fn tests_scheduler_run_order() {
    let mut scheduler = Scheduler::new();

    // The order in which the processes have been run.
    let mut run_order = Vec::new();

    // Add our processes: the payload is the id each would report.
    let priorities = [Priority::LOW, Priority::NORMAL, Priority::HIGH];
    let mut pids = vec![];
    for (id, priority) in priorities.iter().enumerate() {
        let pid = scheduler.add_actor();
        pids.push(pid);
        scheduler.add_new_process(pid, *priority, id, true);
    }

    assert!(scheduler.has_process());
    assert!(scheduler.has_ready_process());

    // Run all processes, should be in order of priority (since their
    // runtimes are equal).
    for _ in 0..3 {
        let process = scheduler.remove().unwrap();
        run_order.push(process.into_payload());
    }
    assert!(!scheduler.has_process());
    assert_eq!(run_order, vec![2_usize, 1, 0]);
}

#[test]
fn assert_actor_process_unmoved() {
    let mut scheduler = Scheduler::new();

    let pid = scheduler.add_actor();
    scheduler.add_new_process(pid, Priority::NORMAL, NopTestProcess, true);

    // Take the process out and put it back multiple times: the record must
    // never move in memory while it lives.
    let process = scheduler.remove().unwrap();
    let address = format!("{:p}", &*process);
    scheduler.add_process(process);

    scheduler.mark_ready(pid);
    let process = scheduler.remove().unwrap();
    assert_eq!(format!("{:p}", &*process), address);
    scheduler.add_process(process);

    scheduler.mark_ready(pid);
    let process = scheduler.remove().unwrap();
    assert_eq!(format!("{:p}", &*process), address);
}

#[test]
fn assert_future_process_unmoved() {
    let mut scheduler = Scheduler::new();
    let pid = scheduler.add_future(NopTestProcess, Priority::NORMAL);

    // Take the process out and put it back multiple times: the record must
    // never move in memory while it lives.
    let process = scheduler.remove().unwrap();
    assert_eq!(process.id(), pid);
    let address = format!("{:p}", &*process);
    scheduler.add_process(process);

    scheduler.mark_ready(pid);
    let process = scheduler.remove().unwrap();
    assert_eq!(format!("{:p}", &*process), address);
    scheduler.add_process(process);

    scheduler.mark_ready(pid);
    let process = scheduler.remove().unwrap();
    assert_eq!(format!("{:p}", &*process), address);
}

#[test]
fn add_future_is_ready_at_once() {
    let mut scheduler = Scheduler::new();
    let pid = scheduler.add_future(NopTestProcess, Priority::NORMAL);
    assert!(scheduler.has_process());
    assert!(scheduler.has_ready_process());
    let process = scheduler.remove().unwrap();
    assert_eq!(process.id(), pid);
    assert!(!scheduler.has_process());
}
