//! Tests for the runtime configuration, the worker-loop decisions and the
//! supervision escalation path.

use heph_rt::process::{Priority, ProcessId};
use heph_rt::rt::{first_error, Runtime};
use heph_rt::scheduler::LocalScheduler;
use heph_rt::supervisor::{handle_restart_error, ActorFate, SupervisorStrategy, Supervisor};
use heph_rt::time::Instant;
use heph_rt::timers::Timers;
use heph_rt::waker::MAX_THREADS;
use heph_rt::worker::{
    drain_wakeups, expire_deadlines, poll_timeout, sync_worker_alive, take_ready_batch,
    PipeWrite, PollDecision,
};

#[test]
fn default_is_one_thread() {
    assert_eq!(Runtime::new().threads(), 1);
}

#[test]
fn worker_count_is_limited() {
    // Up to the limit construction succeeds; one past it fails.
    let ok = Runtime::new().try_num_threads(MAX_THREADS).unwrap();
    assert_eq!(ok.threads(), MAX_THREADS);
    assert!(Runtime::new().try_num_threads(MAX_THREADS + 1).is_none());
    assert!(Runtime::new().try_num_threads(1_000).is_none());
    assert_eq!(Runtime::new().num_threads(2).threads(), 2);
}

#[test]
fn use_all_cores_stays_within_limit() {
    // On a machine with more cores than the runtime can serve this is a
    // hard error; where it succeeds the count is within the limit.
    if let Some(rt) = Runtime::new().use_all_cores() {
        assert!(rt.threads() >= 1);
        assert!(rt.threads() <= MAX_THREADS);
    }
}

#[test]
fn worker_at_rest_blocks_forever() {
    // No ready process and no pending deadline: the worker parks in its
    // poll call alone.
    let scheduler: LocalScheduler<()> = LocalScheduler::new();
    let timers = Timers::new();
    let decision = poll_timeout(&scheduler, &timers, Instant { nanos: 0 });
    assert_eq!(decision, PollDecision::BlockForever);
}

#[test]
fn poll_timeout_decisions() {
    let mut scheduler: LocalScheduler<()> = LocalScheduler::new();
    let mut timers = Timers::new();
    let now_at = Instant { nanos: 1_000 };

    // A pending deadline bounds the sleep.
    timers.add_deadline(ProcessId(1), Instant { nanos: 5_000 });
    assert_eq!(
        poll_timeout(&scheduler, &timers, now_at),
        PollDecision::BlockUntil(Instant { nanos: 5_000 })
    );

    // A deadline already due: no blocking at all.
    timers.add_deadline(ProcessId(2), Instant { nanos: 500 });
    assert_eq!(poll_timeout(&scheduler, &timers, now_at), PollDecision::NoBlock);

    // A ready process always wins.
    let pid = scheduler.add_actor();
    scheduler.add_new_process(pid, Priority::NORMAL, (), true);
    assert_eq!(poll_timeout(&scheduler, &timers, now_at), PollDecision::NoBlock);
}

#[test]
fn wakeups_mark_ready_once_each() {
    let mut scheduler = LocalScheduler::new();
    let pid1 = scheduler.add_actor();
    scheduler.add_new_process(pid1, Priority::NORMAL, (), false);
    let pid2 = scheduler.add_actor();
    scheduler.add_new_process(pid2, Priority::NORMAL, (), false);

    // A wake channel drain with duplicates and a stale id: each named
    // process becomes ready once, the stale id changes nothing.
    let wakes = vec![pid1, ProcessId(77), pid1, pid2];
    drain_wakeups(&mut scheduler, &wakes);
    assert!(scheduler.has_ready_process());

    let first = scheduler.next_process().unwrap();
    let second = scheduler.next_process().unwrap();
    assert_eq!(first.id(), pid1);
    assert_eq!(second.id(), pid2);
    assert!(scheduler.next_process().is_none());
}

#[test]
fn expired_deadlines_wake_processes() {
    let mut scheduler = LocalScheduler::new();
    let mut timers = Timers::new();

    let pid = scheduler.add_actor();
    scheduler.add_new_process(pid, Priority::NORMAL, (), false);
    timers.add_deadline(pid, Instant { nanos: 100 });

    // Before the deadline nothing fires.
    let fired = expire_deadlines(&mut timers, &mut scheduler, Instant { nanos: 50 });
    assert!(fired.is_empty());
    assert!(!scheduler.has_ready_process());

    // At the deadline the process is woken.
    let fired = expire_deadlines(&mut timers, &mut scheduler, Instant { nanos: 100 });
    assert_eq!(fired, vec![pid]);
    assert!(scheduler.has_ready_process());
}

#[test]
fn ready_batch_comes_in_run_order() {
    let mut scheduler = LocalScheduler::new();
    let priorities = [Priority::LOW, Priority::NORMAL, Priority::HIGH];
    for (id, priority) in priorities.iter().enumerate() {
        let pid = scheduler.add_actor();
        scheduler.add_new_process(pid, *priority, id, true);
    }

    // A budget larger than the ready set drains it, best first.
    let batch = take_ready_batch(&mut scheduler, 32);
    let order: Vec<usize> = batch.into_iter().map(|p| p.into_payload()).collect();
    assert_eq!(order, vec![2, 1, 0]);
    assert!(!scheduler.has_process());
}

#[test]
fn ready_batch_respects_budget() {
    let mut scheduler = LocalScheduler::new();
    for i in 0..5usize {
        let pid = scheduler.add_actor();
        scheduler.add_new_process(pid, Priority::NORMAL, i, true);
    }
    let batch = take_ready_batch(&mut scheduler, 2);
    assert_eq!(batch.len(), 2);
    assert!(scheduler.has_ready_process());
}

#[test]
fn sync_worker_liveness() {
    assert!(sync_worker_alive(PipeWrite::Wrote));
    assert!(sync_worker_alive(PipeWrite::WouldBlock));
    assert!(!sync_worker_alive(PipeWrite::Failed));
}

#[test]
fn first_error_reports_the_first_failure() {
    let all_fine: Vec<Result<(), u8>> = vec![Ok(()), Ok(()), Ok(())];
    assert_eq!(first_error(all_fine), Ok(()));

    let one_bad: Vec<Result<(), u8>> = vec![Ok(()), Err(3), Ok(()), Err(5)];
    assert_eq!(first_error(one_bad), Err(3));

    let none: Vec<Result<(), u8>> = Vec::new();
    assert_eq!(first_error(none), Ok(()));
}

struct CountingSupervisor {
    second_errors: usize,
}

impl Supervisor<String, (), &'static str> for CountingSupervisor {
    fn decide(&mut self, _error: ()) -> SupervisorStrategy<String> {
        SupervisorStrategy::Restart(String::from("again"))
    }

    fn decide_on_restart_error(&mut self, _error: &'static str) -> SupervisorStrategy<String> {
        SupervisorStrategy::Restart(String::from("one more chance"))
    }

    fn second_restart_error(&mut self, _error: &'static str) {
        self.second_errors += 1;
    }
}

#[test]
fn restart_errors_escalate() {
    let mut supervisor = CountingSupervisor { second_errors: 0 };

    // First factory failure: the supervisor's word counts.
    let fate: ActorFate<String> = handle_restart_error(&mut supervisor, "broken", true);
    assert!(matches!(fate, ActorFate::RestartWith(arg) if arg == "one more chance"));
    assert_eq!(supervisor.second_errors, 0);

    // Second factory failure: the supervisor is told, the actor stops
    // whatever it would prefer.
    let fate: ActorFate<String> = handle_restart_error(&mut supervisor, "broken again", false);
    assert!(matches!(fate, ActorFate::Terminate));
    assert_eq!(supervisor.second_errors, 1);
}
