//! Tests for synchronous actor contexts and supervision.

use heph_rt::supervisor::{
    fate_of_strategy, sync_worker_step, ActorFate, SupervisorStrategy, SyncSupervisor,
};
use heph_rt::sync::{RecvError, SyncContext};

#[test]
fn context_try_receive_next() {
    let (_manager, sender, receiver) = heph_inbox::Manager::new_small_channel();
    let mut ctx = SyncContext::new(receiver);

    sender.try_send("Hello world".to_owned()).unwrap();
    loop {
        match ctx.try_receive_next() {
            Ok(msg) => {
                assert_eq!(msg, "Hello world");
                return;
            }
            Err(RecvError::Empty) => continue,
            Err(RecvError::Disconnected) => panic!("unexpected disconnected error"),
        }
    }
}

#[test]
fn messages_then_no_messages() {
    // Sending a batch of messages and dropping every sender: the actor
    // observes exactly those messages, in order, and then the channel
    // reports that no message will ever come again.
    let (_manager, sender, receiver) = heph_inbox::Manager::new_small_channel();
    let mut ctx = SyncContext::new(receiver);

    let count = 5;
    for i in 0..count {
        sender.try_send(format!("message {i}")).unwrap();
    }
    // All senders still alive: the drained channel is merely empty.
    for i in 0..count {
        assert_eq!(ctx.try_receive_next(), Ok(format!("message {i}")));
    }
    assert_eq!(ctx.try_receive_next(), Err(RecvError::Empty));

    drop(sender);
    assert_eq!(ctx.try_receive_next(), Err(RecvError::Disconnected));
    assert_eq!(ctx.try_receive_next(), Err(RecvError::Disconnected));
}

struct BadActorSupervisor;

impl SyncSupervisor<usize, usize> for BadActorSupervisor {
    fn decide(&mut self, err_count: usize) -> SupervisorStrategy<usize> {
        if err_count == 1 {
            SupervisorStrategy::Restart(err_count)
        } else {
            SupervisorStrategy::Stop
        }
    }
}

fn bad_actor(count: usize) -> Result<(), usize> {
    Err(count + 1)
}

#[test]
fn supervision() {
    // An actor that fails on every run: the supervisor restarts it once and
    // stops it on the second failure, so it runs exactly twice.
    let mut supervisor = BadActorSupervisor;
    let mut arg = 0usize;
    let mut runs = 0usize;
    loop {
        runs += 1;
        let result = bad_actor(arg);
        match sync_worker_step(&mut supervisor, result) {
            ActorFate::RestartWith(new_arg) => arg = new_arg,
            ActorFate::Terminate => break,
        }
    }
    assert_eq!(runs, 2);
}

#[test]
fn strategy_maps_exactly_to_fate() {
    // The runtime takes the supervisor at its word: a restart decision
    // becomes a restart with exactly the decided argument, a stop decision
    // terminates.
    let fate = fate_of_strategy(SupervisorStrategy::Restart(41usize));
    assert!(matches!(fate, ActorFate::RestartWith(41)));
    let fate: ActorFate<usize> = fate_of_strategy(SupervisorStrategy::Stop);
    assert!(matches!(fate, ActorFate::Terminate));
}

struct AlwaysRestart;

impl SyncSupervisor<u8, ()> for AlwaysRestart {
    fn decide(&mut self, _err: ()) -> SupervisorStrategy<u8> {
        SupervisorStrategy::Restart(9)
    }
}

#[test]
fn successful_actor_terminates() {
    // A run that returned without error terminates the actor, whatever the
    // supervisor would prefer.
    let mut supervisor = AlwaysRestart;
    let fate: ActorFate<u8> = sync_worker_step(&mut supervisor, Ok(()));
    assert!(matches!(fate, ActorFate::Terminate));

    // And a failed run consults the supervisor.
    let fate: ActorFate<u8> = sync_worker_step(&mut supervisor, Err(()));
    assert!(matches!(fate, ActorFate::RestartWith(9)));
}
