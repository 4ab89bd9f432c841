use crate::error::ChannelError;
use crate::model::Wake;
use crate::receiver::Receiver;
use crate::sender::Sender;
use crate::state::ChannelState;
use crate::sync::wait_while_idle;
use std::sync::{Arc, Condvar, Mutex, MutexGuard};
use vstd::prelude::*;

verus! {

/// What the handles of one channel share: the channel's state behind its
/// lock, and the condition variable on which the consumer waits. The
/// condition variable is signalled under the lock, whenever an item is
/// pushed or the channel becomes closed.
#[verifier::reject_recursive_types(T)]
pub struct SharedState<T> {
    elements: Mutex<ChannelState<T>>,
    is_empty: Condvar,
}

impl<T> SharedState<T> {
    /// A lock around a new channel state, with its condition variable.
    pub(crate) fn new() -> Self {
        SharedState { elements: Mutex::new(ChannelState::new()), is_empty: Condvar::new() }
    }

    /// Waits for the lock. A poisoned lock is reported as `Corrupted`.
    pub(crate) fn lock(&self) -> (r: Result<MutexGuard<'_, ChannelState<T>>, ChannelError>)
        ensures
            r matches Err(e) ==> e == ChannelError::Corrupted,
    {
        match self.elements.lock() {
            Ok(guard) => Ok(guard),
            Err(_) => Err(ChannelError::Corrupted),
        }
    }

    /// Waits for the lock and takes it even if it is poisoned, for the
    /// operations that have no way to fail.
    pub(crate) fn lock_anyway(&self) -> MutexGuard<'_, ChannelState<T>> {
        match self.elements.lock() {
            Ok(guard) => guard,
            Err(poisoned) => poisoned.into_inner(),
        }
    }

    /// Takes the lock if it is free right now. If not, the error is what
    /// [`ChannelError::from_try_lock`] makes of the reason.
    pub(crate) fn try_lock(&self) -> (r: Result<MutexGuard<'_, ChannelState<T>>, ChannelError>)
        ensures
            r matches Err(e) ==> e == ChannelError::RecvBlocked || e == ChannelError::Corrupted,
    {
        match self.elements.try_lock() {
            Ok(guard) => Ok(guard),
            Err(failure) => Err(ChannelError::from_try_lock(failure)),
        }
    }

    /// Gives up the lock and sleeps until the channel is no longer idle,
    /// then holds the lock again. A poisoned lock is reported as
    /// `Corrupted`.
    pub(crate) fn wait_while_idle<'a>(&self, guard: MutexGuard<'a, ChannelState<T>>) -> (r: Result<
        MutexGuard<'a, ChannelState<T>>,
        ChannelError,
    >)
        ensures
            r matches Err(e) ==> e == ChannelError::Corrupted,
    {
        match wait_while_idle(&self.is_empty, guard) {
            Ok(guard) => Ok(guard),
            Err(_) => Err(ChannelError::Corrupted),
        }
    }

    /// Wakes the threads that a transition said to wake. Called while the
    /// lock is still held, so that no waiter can miss it.
    pub(crate) fn wake(&self, whom: Wake) {
        match whom {
            Wake::Nobody => {},
            Wake::One => self.is_empty.notify_one(),
            Wake::All => self.is_empty.notify_all(),
        }
    }
}

/// Makes a channel: open, empty, with its first sender and its one
/// receiver. Both handles refer to the same shared state.
pub fn channel<T>() -> (handles: (Sender<T>, Receiver<T>))
    ensures
        handles.0.shared() == handles.1.shared(),
{
    let shared_state = Arc::new(SharedState::new());
    let sender = Sender { state: shared_state.clone() };
    let receiver = Receiver { state: shared_state };
    (sender, receiver)
}

} // verus!
