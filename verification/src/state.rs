use crate::error::ChannelError;
use crate::model::{ChannelView, Wake};
use std::collections::VecDeque;
use vstd::prelude::*;

verus! {

/// The closed flag and the count of live senders. Kept apart from the queue
/// so that the rule between the two is held by the type itself.
struct Lifecycle {
    closed: bool,
    senders: usize,
}

impl Lifecycle {
    #[verifier::type_invariant]
    spec fn counted(self) -> bool {
        self.senders == 0 ==> self.closed
    }
}

/// The state of one channel. It is what the lock guards; a handle reaches
/// it only while it holds the lock.
pub struct ChannelState<T> {
    elements: VecDeque<T>,
    life: Lifecycle,
}

impl<T> View for ChannelState<T> {
    type V = ChannelView<T>;

    closed spec fn view(&self) -> ChannelView<T> {
        ChannelView {
            queue: self.elements@,
            closed: self.life.closed,
            senders: self.life.senders as nat,
        }
    }
}

impl<T> ChannelState<T> {
    /// An open, empty channel with one sender.
    pub fn new() -> (state: Self)
        ensures
            state@ == ChannelView::<T>::fresh(),
    {
        ChannelState { elements: VecDeque::new(), life: Lifecycle { closed: false, senders: 1 } }
    }

    /// Appends `item` if the channel is open, and says that one waiting
    /// thread is to be woken. A closed channel is left as it was: it answers
    /// `ChannelClosed` and hands the item back, for the caller to drop once
    /// the lock is free.
    pub fn push(&mut self, item: T) -> (r: Result<Wake, (ChannelError, T)>)
        ensures
            final(self)@ == old(self)@.after_send(item),
            final(self)@.wf(),
            old(self)@.closed ==> r == Err::<Wake, (ChannelError, T)>(
                (ChannelError::ChannelClosed, item),
            ),
            !old(self)@.closed ==> r == Ok::<Wake, (ChannelError, T)>(
                old(self)@.wake_after_send(),
            ),
    {
        proof {
            use_type_invariant(&self.life);
        }
        if self.life.closed {
            Err((ChannelError::ChannelClosed, item))
        } else {
            self.elements.push_back(item);
            Ok(Wake::One)
        }
    }

    /// Takes the oldest item. An empty queue answers `ChannelClosed` when the
    /// channel is closed and `ChannelEmpty` when it is open.
    pub fn pop(&mut self) -> (r: Result<T, ChannelError>)
        ensures
            r == old(self)@.recv_outcome(),
            final(self)@ == old(self)@.after_recv(),
            final(self)@.wf(),
    {
        proof {
            use_type_invariant(&self.life);
        }
        match self.elements.pop_front() {
            Some(item) => Ok(item),
            None => {
                if self.life.closed {
                    Err(ChannelError::ChannelClosed)
                } else {
                    Err(ChannelError::ChannelEmpty)
                }
            },
        }
    }

    /// Takes the oldest item for a blocking receive whose wait is over. The
    /// answer is that of [`ChannelState::pop`], but for a channel that is
    /// still idle: that is no `ChannelEmpty` here, it is `Corrupted`.
    pub fn pop_awaited(&mut self) -> (r: Result<T, ChannelError>)
        ensures
            r == old(self)@.awaited_outcome(),
            final(self)@ == old(self)@.after_recv(),
            final(self)@.wf(),
    {
        match self.pop() {
            Err(ChannelError::ChannelEmpty) => Err(ChannelError::Corrupted),
            answer => answer,
        }
    }

    /// Closes the channel and says whom to wake: everyone if this call was
    /// the one that closed it, nobody if it was closed already.
    pub fn close(&mut self) -> (wake: Wake)
        ensures
            final(self)@ == old(self)@.after_close(),
            final(self)@.wf(),
            wake == old(self)@.wake_after_close(),
    {
        let wake = if self.life.closed {
            Wake::Nobody
        } else {
            Wake::All
        };
        self.life.closed = true;
        wake
    }

    /// Counts one more live sender.
    pub fn add_sender(&mut self)
        ensures
            final(self)@ == old(self)@.after_join(),
            final(self)@.wf(),
    {
        if self.life.senders < usize::MAX {
            self.life.senders = self.life.senders + 1;
        }
    }

    /// Counts one sender less and closes the channel when none is left.
    /// Says whom to wake: everyone if this call closed the channel.
    pub fn release_sender(&mut self) -> (wake: Wake)
        ensures
            final(self)@ == old(self)@.after_release(),
            final(self)@.wf(),
            wake == old(self)@.wake_after_release(),
    {
        if self.life.senders > 1 {
            self.life.senders = self.life.senders - 1;
            Wake::Nobody
        } else {
            let wake = if self.life.closed {
                Wake::Nobody
            } else {
                Wake::All
            };
            self.life = Lifecycle { closed: true, senders: 0 };
            wake
        }
    }

    /// The number of items in the queue.
    pub fn len(&self) -> (n: usize)
        ensures
            n == self@.queue.len(),
            self@.wf(),
    {
        proof {
            use_type_invariant(&self.life);
        }
        self.elements.len()
    }

    /// Whether the channel is closed.
    pub fn is_closed(&self) -> (closed: bool)
        ensures
            closed == self@.closed,
            self@.wf(),
    {
        proof {
            use_type_invariant(&self.life);
        }
        self.life.closed
    }

    /// The number of live senders.
    pub fn sender_count(&self) -> (n: usize)
        ensures
            n == self@.senders,
            self@.wf(),
    {
        proof {
            use_type_invariant(&self.life);
        }
        self.life.senders
    }

    /// Whether a blocking receive would have to wait.
    pub fn is_idle(&self) -> (idle: bool)
        ensures
            idle == self@.idle(),
    {
        self.elements.len() == 0 && !self.life.closed
    }
}

} // verus!
