use vstd::prelude::*;

use crate::error::{KernelError, VoidRes};
use tokio::sync::mpsc::{Receiver, Sender};

verus! {

#[verifier::external_type_specification]
#[verifier::external_body]
#[verifier::reject_recursive_types(T)]
pub struct ExSender<T>(Sender<T>);

#[verifier::external_type_specification]
#[verifier::external_body]
#[verifier::reject_recursive_types(T)]
pub struct ExReceiver<T>(Receiver<T>);

/// The number of messages a service's channel holds before senders wait.
pub const CAPACITY: usize = 32;

/// Why a blocking send was refused: the runtime it was called from forbids
/// blocking its thread.
pub const BLOCKING_NOT_ALLOWED: &'static str = "blocking send where the runtime forbids blocking";

/// The most slots a channel can have: tokio's semaphore holds at most
/// `usize::MAX >> 3` permits, which is this on 32-bit targets.
pub const MAX_CAPACITY: usize = 0x1fff_ffff;

/// Relies on tokio's `mpsc::channel`: a bounded channel whose bound is
/// `capacity`. It panics on a capacity of 0 or above tokio's permit limit.
#[verifier::external_body]
fn bounded<M>(capacity: usize) -> (r: (Sender<M>, Receiver<M>, Ghost<nat>))
    requires
        0 < capacity <= MAX_CAPACITY,
    ensures
        r.2@ == capacity,
{
    let (sender, receiver) = tokio::sync::mpsc::channel(capacity);
    (sender, receiver, Ghost(capacity as nat))
}

/// A cloneable handle through which messages reach one supervised service.
#[verifier::reject_recursive_types(Mes)]
pub struct ServerHandle<Mes> {
    pub sender: Sender<Mes>,
}

impl<Mes> ServerHandle<Mes> {
    pub fn new(sender: Sender<Mes>) -> (r: Self)
        ensures
            r.sender == sender,
    {
        ServerHandle { sender }
    }

    /// A new channel: the handle that feeds it, the receiver that a
    /// supervising loop drains, and its bound, which is `CAPACITY` slots.
    pub fn open() -> (r: (Self, Receiver<Mes>, Ghost<nat>))
        ensures
            r.2@ == CAPACITY,
    {
        let (sender, receiver, bound) = bounded(CAPACITY);
        (ServerHandle::new(sender), receiver, bound)
    }
}

/// What a blocking send returns, given what happened to it: `None` where the
/// runtime refused to let the calling thread block, else the channel's answer,
/// with its error text where the channel was closed.
pub fn sync_send_outcome(delivery: Option<Result<(), String>>) -> (r: VoidRes)
    ensures
        delivery is None ==> (r matches Err(KernelError::BlockingNotAllowed(t)) && t@ == BLOCKING_NOT_ALLOWED@),
        delivery == Some(Ok::<(), String>(())) ==> r is Ok,
        delivery matches Some(Err(t)) ==> r == Err::<(), KernelError>(KernelError::ChannelError(t)),
{
    match delivery {
        None => Err(KernelError::BlockingNotAllowed(BLOCKING_NOT_ALLOWED.to_owned())),
        Some(Ok(())) => Ok(()),
        Some(Err(t)) => Err(KernelError::ChannelError(t)),
    }
}

} // verus!
