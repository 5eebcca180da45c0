//! Synchronous actors: the context they run in and the protocol around
//! them.
//!
//! A synchronous actor runs on a dedicated thread and receives its messages
//! from a bounded channel. The channel itself comes from the `heph_inbox`
//! crate and is taken on trust behind a thin wrapper; what this module pins
//! down is the context type handed to the actor and the shape of the
//! receive errors. Blocking — waiting for a message by parking the thread —
//! belongs to the thread that hosts the actor, outside this crate.

use vstd::prelude::*;

verus! {

/// Error of a non-blocking receive.
#[derive(Clone, Copy, PartialEq, Eq, Structural, Debug, Hash)]
pub enum RecvError {
    /// No message is in the channel right now.
    Empty,
    /// The channel is empty and every sender is gone: no message will ever
    /// arrive again.
    Disconnected,
}

/// Declares `heph_inbox::Receiver`, the receiving half of an actor's
/// mailbox; opaque here, read only through [`SyncContext::try_receive_next`].
#[verifier::external_type_specification]
#[verifier::external_body]
#[verifier::reject_recursive_types(T)]
pub struct ExReceiver<T>(heph_inbox::Receiver<T>);

/// Relies on `heph_inbox::Receiver::try_recv`: hands out the next message
/// if one is in the channel; reports `Empty` when none is there yet and
/// `Disconnected` when none is there and every sender is gone.
#[verifier::external_body]
fn inbox_try_recv<M>(inbox: &mut heph_inbox::Receiver<M>) -> (r: Result<M, RecvError>) {
    match inbox.try_recv() {
        Ok(message) => Ok(message),
        Err(heph_inbox::RecvError::Empty) => Err(RecvError::Empty),
        Err(heph_inbox::RecvError::Disconnected) => Err(RecvError::Disconnected),
    }
}

/// The context in which a synchronous actor runs: its end of the mailbox.
#[verifier::reject_recursive_types(M)]
pub struct SyncContext<M> {
    /// The actor's mailbox.
    inbox: heph_inbox::Receiver<M>,
}

impl<M> SyncContext<M> {
    /// Create a context around the receiving end of an actor's mailbox.
    pub fn new(inbox: heph_inbox::Receiver<M>) -> SyncContext<M> {
        SyncContext { inbox }
    }

    /// Attempt to receive the next message, without waiting.
    ///
    /// The channel keeps messages roughly in send order, on a best-effort
    /// basis; when it is drained and every sender is gone the error is
    /// `Disconnected`, the actor's sign to shut down.
    pub fn try_receive_next(&mut self) -> Result<M, RecvError> {
        inbox_try_recv(&mut self.inbox)
    }
}

/// A synchronous actor: runs on a thread of its own, receives through the
/// context, and reports one terminal error to its supervisor. Implemented
/// by the runtime's users.
pub trait SyncActor {
    /// The type of messages the actor receives.
    type Message;

    /// The argument the actor starts (and restarts) with.
    type Argument;

    /// The terminal error the actor can return to its supervisor.
    type Error;

    /// Run the actor to completion.
    fn run(&self, ctx: SyncContext<Self::Message>, arg: Self::Argument) -> Result<(), Self::Error>;
}

} // verus!
