//! The supervision protocol: what happens after an actor fails.
//!
//! Every actor has a supervisor. When the actor returns an error the
//! supervisor decides between stopping it and restarting it with a new
//! argument. When a restart itself fails — the actor's factory returns an
//! error — the supervisor decides once more; when that second chance fails
//! too, the supervisor is informed and the actor is stopped unconditionally.
//!
//! The deciders are traits the runtime's users implement, so nothing can be
//! promised of the decisions themselves; what the runtime does with a
//! decision is pinned down exactly by [`fate_of_strategy`], and the step
//! functions around it state as much as a decision coming out of a trait
//! call admits.

use vstd::prelude::*;

verus! {

/// The strategy an actor's supervisor decides upon after a failure.
pub enum SupervisorStrategy<Arg> {
    /// Restart the actor, handing its factory this argument.
    Restart(Arg),
    /// Stop the actor; its record is dropped.
    Stop,
}

/// A supervisor of asynchronous actors. Implemented by the runtime's users;
/// nothing is assumed of the decisions.
pub trait Supervisor<Arg, E, FE> {
    /// The actor returned the error `error`: stop it or restart it.
    fn decide(&mut self, error: E) -> SupervisorStrategy<Arg>;

    /// Restarting failed: the actor's factory returned `error`. Decide once
    /// more.
    fn decide_on_restart_error(&mut self, error: FE) -> SupervisorStrategy<Arg>;

    /// The factory failed again on the second chance; the actor is stopped
    /// unconditionally after this returns.
    fn second_restart_error(&mut self, error: FE);
}

/// A supervisor of synchronous actors; restarts of a synchronous actor
/// cannot fail, so one decision suffices.
pub trait SyncSupervisor<Arg, E> {
    /// The actor returned the error `error`: stop it or restart it.
    fn decide(&mut self, error: E) -> SupervisorStrategy<Arg>;
}

/// A supervisor for actors that never fail: it is never consulted, and
/// stops the actor if it somehow is.
#[derive(Clone, Copy, Debug)]
pub struct NoSupervisor;

impl<Arg, E> SyncSupervisor<Arg, E> for NoSupervisor {
    fn decide(&mut self, _error: E) -> SupervisorStrategy<Arg> {
        SupervisorStrategy::Stop
    }
}

impl<Arg, E, FE> Supervisor<Arg, E, FE> for NoSupervisor {
    fn decide(&mut self, _error: E) -> SupervisorStrategy<Arg> {
        SupervisorStrategy::Stop
    }

    fn decide_on_restart_error(&mut self, _error: FE) -> SupervisorStrategy<Arg> {
        SupervisorStrategy::Stop
    }

    fn second_restart_error(&mut self, _error: FE) {
    }
}

/// What becomes of an actor after one run and, if it failed, its
/// supervisor's decision.
pub enum ActorFate<Arg> {
    /// Run the actor again, with this argument.
    RestartWith(Arg),
    /// The actor is done; its record is dropped.
    Terminate,
}

/// What the runtime does with a supervisor's decision — the whole of the
/// supervision decision tree, stated exactly: a `Restart(arg)` decision runs
/// the actor again with exactly `arg`, and a `Stop` decision terminates it.
pub fn fate_of_strategy<Arg>(strategy: SupervisorStrategy<Arg>) -> (fate: ActorFate<Arg>)
    ensures
        strategy matches SupervisorStrategy::Restart(arg) ==> fate == ActorFate::RestartWith(arg),
        strategy is Stop ==> fate is Terminate,
        fate is Terminate <==> strategy is Stop,
{
    match strategy {
        SupervisorStrategy::Restart(arg) => ActorFate::RestartWith(arg),
        SupervisorStrategy::Stop => ActorFate::Terminate,
    }
}

/// One round of a synchronous actor's life: the actor ran and returned
/// `result`. An actor that returned without error terminates without its
/// supervisor being consulted; on an error the supervisor decides, and the
/// decision becomes the fate by [`fate_of_strategy`] — a restart can only
/// come out of a failed run, and carries whatever argument the supervisor
/// decided on.
pub fn sync_worker_step<Sv, Arg, E>(supervisor: &mut Sv, result: Result<(), E>) -> (fate: ActorFate<
    Arg,
>) where Sv: SyncSupervisor<Arg, E>
    ensures
        result is Ok ==> fate is Terminate,
        fate is RestartWith ==> result is Err,
{
    match result {
        Ok(()) => ActorFate::Terminate,
        Err(error) => fate_of_strategy(supervisor.decide(error)),
    }
}

/// The restart path of an asynchronous actor whose factory failed.
///
/// On the first factory failure the supervisor decides, and the decision
/// becomes the fate by [`fate_of_strategy`]; on the second, the supervisor
/// is informed and the actor terminates whatever it would prefer, so a
/// restart can only come out of the first failure.
pub fn handle_restart_error<Sv, Arg, E, FE>(
    supervisor: &mut Sv,
    error: FE,
    first_failure: bool,
) -> (fate: ActorFate<Arg>) where Sv: Supervisor<Arg, E, FE>
    ensures
        !first_failure ==> fate is Terminate,
        fate is RestartWith ==> first_failure,
{
    if first_failure {
        fate_of_strategy(supervisor.decide_on_restart_error(error))
    } else {
        supervisor.second_restart_error(error);
        ActorFate::Terminate
    }
}

} // verus!
