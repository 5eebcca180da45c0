//! Tests for the timer types and the deadline bookkeeping.

use heph_rt::process::ProcessId;
use heph_rt::time::{now, Duration, Instant};
use heph_rt::timer::{Deadline, DeadlinePassed, Interval, Timer};
use heph_rt::timers::Timers;

#[test]
fn deadline_get_deadline() {
    let mut timers = Timers::new();
    let deadline = now();
    let future = Deadline::new(&mut timers, ProcessId(0), deadline, ());
    assert_eq!(future.deadline(), deadline);
}

#[test]
fn deadline_has_passed_at() {
    let mut timers = Timers::new();
    let start = Instant { nanos: 1_000 };
    let timeout = Duration::from_nanos(200);
    let deadline = start.saturating_add(&timeout);
    let future = Deadline::new(&mut timers, ProcessId(0), deadline, ());

    assert!(!future.has_passed_at(&start));
    assert!(!future.has_passed_at(&Instant { nanos: 1_199 }));
    assert!(future.has_passed_at(&Instant { nanos: 1_200 }));
    assert_eq!(future.deadline(), Instant { nanos: 1_200 });
}

#[test]
fn deadline_short_circuit() {
    // A deadline wrapping a future that never completes: pending before the
    // deadline, and a timeout error from the deadline on.
    let mut timers = Timers::new();
    let deadline = Instant { nanos: 100_000_000 };
    let never_ready = ();
    let future = Deadline::new(&mut timers, ProcessId(3), deadline, never_ready);

    // First poll, before the deadline: fall through to the wrapped future.
    assert_eq!(future.poll_at(&Instant { nanos: 50_000_000 }), None);
    // After the deadline has passed: short-circuit.
    assert_eq!(
        future.poll_at(&Instant { nanos: 150_000_000 }),
        Some(DeadlinePassed)
    );
}

#[test]
fn timer_poll_at() {
    let mut timers = Timers::new();
    let deadline = Instant { nanos: 500 };
    let timer = Timer::new(&mut timers, ProcessId(1), deadline);
    assert_eq!(timer.deadline(), deadline);
    assert_eq!(timer.poll_at(&Instant { nanos: 499 }), None);
    assert_eq!(timer.poll_at(&Instant { nanos: 500 }), Some(DeadlinePassed));
    assert_eq!(timer.poll_at(&Instant { nanos: 501 }), Some(DeadlinePassed));
}

#[test]
fn timeout_at_pins_the_deadline() {
    // Measured from an explicit instant, the deadline is exactly the
    // instant plus the span.
    let mut timers = Timers::new();
    let at = Instant { nanos: 1_000 };
    let span = Duration::from_nanos(250);

    let timer = Timer::timeout_at(&mut timers, ProcessId(1), at, span);
    assert_eq!(timer.deadline(), Instant { nanos: 1_250 });

    let wrapped = Deadline::timeout_at(&mut timers, ProcessId(2), at, span, ());
    assert_eq!(wrapped.deadline(), Instant { nanos: 1_250 });

    let stream = Interval::starting_at(&mut timers, ProcessId(3), at, span);
    assert_eq!(stream.next_deadline(), Instant { nanos: 1_250 });

    // All three registered their deadline.
    let fired = timers.expire(Instant { nanos: 1_250 });
    assert_eq!(fired, vec![ProcessId(1), ProcessId(2), ProcessId(3)]);
}

#[test]
fn timer_wrap_keeps_deadline() {
    let mut timers = Timers::new();
    let deadline = Instant { nanos: 42 };
    let timer = Timer::new(&mut timers, ProcessId(1), deadline);
    let wrapped = timer.wrap("payload");
    assert_eq!(wrapped.deadline(), deadline);
    assert_eq!(wrapped.into_future(), "payload");
}

#[test]
fn timers_next_deadline_is_earliest() {
    let mut timers = Timers::new();
    assert_eq!(timers.next_deadline(), None);

    timers.add_deadline(ProcessId(1), Instant { nanos: 300 });
    timers.add_deadline(ProcessId(2), Instant { nanos: 100 });
    timers.add_deadline(ProcessId(3), Instant { nanos: 200 });
    assert_eq!(timers.next_deadline(), Some(Instant { nanos: 100 }));
}

#[test]
fn timers_expire_in_deadline_order() {
    let mut timers = Timers::new();
    timers.add_deadline(ProcessId(1), Instant { nanos: 300 });
    timers.add_deadline(ProcessId(2), Instant { nanos: 100 });
    timers.add_deadline(ProcessId(3), Instant { nanos: 200 });
    timers.add_deadline(ProcessId(4), Instant { nanos: 400 });

    let fired = timers.expire(Instant { nanos: 300 });
    assert_eq!(fired, vec![ProcessId(2), ProcessId(3), ProcessId(1)]);
    // The late deadline is still pending.
    assert_eq!(timers.next_deadline(), Some(Instant { nanos: 400 }));
    assert_eq!(timers.expire(Instant { nanos: 350 }), vec![]);
}

#[test]
fn past_deadline_fires_on_next_expiry() {
    // A deadline set for the past fires on the very next expiry pass.
    let mut timers = Timers::new();
    let long_gone = Instant { nanos: 0 };
    timers.add_deadline(ProcessId(9), long_gone);
    let fired = timers.expire(Instant { nanos: 1 });
    assert_eq!(fired, vec![ProcessId(9)]);
    assert_eq!(timers.next_deadline(), None);
}

#[test]
fn stale_deadlines_fire_harmlessly() {
    // Two deadlines for one process: both stay queued, both fire.
    let mut timers = Timers::new();
    timers.add_deadline(ProcessId(5), Instant { nanos: 100 });
    timers.add_deadline(ProcessId(5), Instant { nanos: 200 });
    let fired = timers.expire(Instant { nanos: 250 });
    assert_eq!(fired, vec![ProcessId(5), ProcessId(5)]);
}

#[test]
fn interval_yields_and_drifts() {
    let mut timers = Timers::new();
    let interval = Duration::from_nanos(10);
    let mut stream = Interval::new(&mut timers, ProcessId(7), interval);
    assert!(!stream.is_terminated());

    let first_deadline = stream.next_deadline();

    // Polled before the deadline: pending, nothing changes.
    let before = Instant { nanos: first_deadline.nanos - 1 };
    assert_eq!(stream.poll_next_at(&mut timers, &before), None);
    assert_eq!(stream.next_deadline(), first_deadline);

    // Polled late: it yields, and the next deadline is measured from the
    // poll, not from the missed deadline - the interval drifts.
    let late = Instant { nanos: first_deadline.nanos + 5 };
    assert_eq!(
        stream.poll_next_at(&mut timers, &late),
        Some(DeadlinePassed)
    );
    assert_eq!(stream.next_deadline(), Instant { nanos: late.nanos + 10 });
}

#[test]
fn bind_to_reregisters_deadline() {
    let mut timers = Timers::new();
    let deadline = Instant { nanos: 600 };
    let mut timer = Timer::new(&mut timers, ProcessId(1), deadline);

    // Rebinding to another process installs a fresh deadline at the same
    // instant; the stale one stays and fires harmlessly.
    timer.bind_to(&mut timers, ProcessId(2));
    assert_eq!(timer.deadline(), deadline);
    let fired = timers.expire(Instant { nanos: 600 });
    assert_eq!(fired, vec![ProcessId(1), ProcessId(2)]);
}

#[test]
fn duration_units_agree() {
    assert_eq!(Duration::from_millis(1), Duration::from_nanos(1_000_000));
    assert_eq!(Duration::from_secs(1), Duration::from_millis(1_000));
    assert_eq!(Duration::from_nanos(1_500_000_000), Duration::new(1, 500_000_000));
}

#[test]
fn duration_arithmetic_saturates() {
    // Adding past the largest representable duration is reported.
    let huge = Duration::new(u64::MAX, 0);
    assert_eq!(huge.checked_add(&Duration::from_secs(1)), None);
    assert_eq!(
        Duration::new(2, 500).checked_add(&Duration::new(1, 999_999_999)),
        Some(Duration::new(4, 499))
    );

    // Weighted multiplication saturates at the largest duration.
    let capped = Duration::new(u64::MAX, 999_999_999).saturating_mul_small(4);
    assert_eq!(capped, Duration::max_value());
    assert_eq!(
        Duration::new(1, 500_000_000).saturating_mul_small(2),
        Duration::new(3, 0)
    );
}

#[test]
fn instant_saturating_add() {
    let base = Instant { nanos: u64::MAX - 5 };
    let sum = base.saturating_add(&Duration::from_nanos(3));
    assert_eq!(sum, Instant { nanos: u64::MAX - 2 });
    let capped = base.saturating_add(&Duration::from_nanos(10));
    assert_eq!(capped, Instant { nanos: u64::MAX });
}
