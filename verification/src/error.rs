use std::sync::TryLockError;
use vstd::prelude::*;

verus! {

/// Why an operation on a channel did not go through.
#[derive(Debug, Clone, Copy, PartialEq, Eq, Structural)]
pub enum ChannelError {
    /// The channel is closed. From a receive this also means that the queue
    /// was empty: queued items are always handed out first.
    ChannelClosed,
    /// The channel is open but holds no item right now.
    ChannelEmpty,
    /// Another thread held the lock at the moment of a non-blocking receive.
    /// This says nothing about the channel; the caller may try again.
    RecvBlocked,
    /// The channel can no longer be trusted: a thread panicked while it held
    /// the lock, or a wait ended although the channel was open and empty.
    Corrupted,
}

impl ChannelError {
    /// What a non-blocking receive reports when it did not get the lock:
    /// `RecvBlocked` when another thread holds it, `Corrupted` when it is
    /// poisoned.
    pub fn from_try_lock<G>(failure: TryLockError<G>) -> (e: ChannelError)
        ensures
            failure is WouldBlock ==> e == ChannelError::RecvBlocked,
            failure is Poisoned ==> e == ChannelError::Corrupted,
    {
        match failure {
            TryLockError::WouldBlock => ChannelError::RecvBlocked,
            TryLockError::Poisoned(_) => ChannelError::Corrupted,
        }
    }
}

} // verus!
