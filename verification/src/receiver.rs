use crate::error::ChannelError;
use crate::shared_state::SharedState;
use crate::state::ChannelState;
use std::sync::Arc;
use vstd::prelude::*;

verus! {

/// The receiving half of a channel. There is one per channel, and it cannot
/// be cloned.
#[verifier::reject_recursive_types(T)]
pub struct Receiver<T> {
    pub(crate) state: Arc<SharedState<T>>,
}

impl<T> Receiver<T> {
    /// The shared state that this handle refers to.
    pub open(crate) spec fn shared(&self) -> Arc<SharedState<T>> {
        self.state
    }

    /// Waits until the channel has an item or is closed, then answers as
    /// [`ChannelState::pop_awaited`] says: the oldest item if there is one,
    /// whether or not the channel is closed, and `ChannelClosed` otherwise.
    /// What the channel holds is for the other threads to decide, so all
    /// that holds of every outcome is which errors there can be: never
    /// `ChannelEmpty`, never `RecvBlocked`.
    pub fn recv(&self) -> (r: Result<T, ChannelError>)
        ensures
            r matches Err(e) ==> e == ChannelError::ChannelClosed || e == ChannelError::Corrupted,
    {
        let guard = self.state.lock()?;
        let mut guard = self.state.wait_while_idle(guard)?;
        let channel: &mut ChannelState<T> = &mut *guard;
        let answer = channel.pop_awaited();
        answer
    }

    /// Answers at once. If the lock is free, the answer is what
    /// [`ChannelState::pop`] says: the oldest item, or `ChannelClosed`, or
    /// `ChannelEmpty`. If the lock is not to be had the answer is what
    /// [`ChannelError::from_try_lock`] makes of the reason: `RecvBlocked`
    /// while another thread holds it. Every answer is possible, whatever
    /// this thread did before, so nothing is promised of the result.
    pub fn try_recv(&self) -> (r: Result<T, ChannelError>) {
        let mut guard = self.state.try_lock()?;
        let channel: &mut ChannelState<T> = &mut *guard;
        let answer = channel.pop();
        answer
    }
}

} // verus!
