use crate::error::ChannelError;
use crate::shared_state::SharedState;
use crate::state::ChannelState;
use std::sync::Arc;
use vstd::prelude::*;

verus! {

/// The sending half of a channel. There may be many: `clone` makes another
/// one and counts it, `release` gives one up. The channel closes when the
/// last one is released. A sender that is dropped without `release` stays
/// counted, so the channel then closes only by `close`.
#[verifier::reject_recursive_types(T)]
pub struct Sender<T> {
    pub(crate) state: Arc<SharedState<T>>,
}

impl<T> Sender<T> {
    /// The shared state that this handle refers to.
    pub open(crate) spec fn shared(&self) -> Arc<SharedState<T>> {
        self.state
    }

    /// Sends `item`. Under the lock, an open channel takes the item as
    /// [`ChannelState::push`] says and one waiting consumer is woken; a
    /// closed channel answers `ChannelClosed` and the item is dropped once
    /// the lock is free again. Whether the channel is open is for the other
    /// threads to decide, so all that holds of every outcome is which errors
    /// there can be.
    pub fn send(&self, item: T) -> (r: Result<(), ChannelError>)
        ensures
            r matches Err(e) ==> e == ChannelError::ChannelClosed || e == ChannelError::Corrupted,
    {
        let refused = match self.state.lock() {
            Ok(mut guard) => {
                let channel: &mut ChannelState<T> = &mut *guard;
                match channel.push(item) {
                    Ok(whom) => {
                        self.state.wake(whom);
                        return Ok(());
                    },
                    Err(refused) => refused,
                }
            },
            Err(e) => {
                return Err(e);
            },
        };
        Err(refused.0)
    }

    /// Closes the channel, as [`ChannelState::close`] says, and wakes every
    /// waiting thread if this call was the one that closed it. Never fails:
    /// closing a closed channel does nothing, and a poisoned lock is closed
    /// all the same.
    pub fn close(&mut self) -> (r: Result<(), ChannelError>)
        ensures
            r is Ok,
            final(self).shared() == old(self).shared(),
    {
        let mut guard = self.state.lock_anyway();
        let channel: &mut ChannelState<T> = &mut *guard;
        let whom = channel.close();
        self.state.wake(whom);
        Ok(())
    }

    /// Gives this sender up, as [`ChannelState::release_sender`] says. If it
    /// was the last one the channel is closed now, and every waiting thread
    /// is woken.
    pub fn release(self) {
        let mut guard = self.state.lock_anyway();
        let channel: &mut ChannelState<T> = &mut *guard;
        let whom = channel.release_sender();
        self.state.wake(whom);
    }
}

impl<T> Clone for Sender<T> {
    /// Another sender for the same channel, counted under the lock before it
    /// is returned, as [`ChannelState::add_sender`] says.
    fn clone(&self) -> (other: Self)
        ensures
            other.shared() == self.shared(),
    {
        let mut guard = self.state.lock_anyway();
        let channel: &mut ChannelState<T> = &mut *guard;
        channel.add_sender();
        Sender { state: self.state.clone() }
    }
}

} // verus!
