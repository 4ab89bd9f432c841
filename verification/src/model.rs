use crate::error::ChannelError;
use vstd::prelude::*;

verus! {

/// Which of the threads that wait for the channel a transition has to wake.
#[derive(Debug, Clone, Copy, PartialEq, Eq, Structural)]
pub enum Wake {
    /// Nothing changed that a waiting thread could be waiting for.
    Nobody,
    /// An item has arrived: one waiting thread can take it.
    One,
    /// The channel has been closed: every waiting thread has to learn of it.
    All,
}

/// Where a channel stands in its life. It only ever moves forward.
pub enum Phase {
    /// Sends are accepted.
    Open,
    /// Closed, with items still to hand out.
    Draining,
    /// Closed and empty. Nothing leads out of here.
    Closed,
}

/// What a channel is, mathematically: the items in flight, oldest first,
/// whether it has been closed, and how many senders are alive.
pub struct ChannelView<T> {
    pub queue: Seq<T>,
    pub closed: bool,
    pub senders: nat,
}

impl<T> ChannelView<T> {
    /// A new channel: open, empty, with its one first sender.
    pub open spec fn fresh() -> Self {
        ChannelView { queue: Seq::empty(), closed: false, senders: 1 }
    }

    /// A channel without senders is closed.
    pub open spec fn wf(self) -> bool {
        self.senders == 0 ==> self.closed
    }

    /// The phase that the channel is in.
    pub open spec fn phase(self) -> Phase {
        if !self.closed {
            Phase::Open
        } else if self.queue.len() > 0 {
            Phase::Draining
        } else {
            Phase::Closed
        }
    }

    /// Nothing to hand out and nothing decided yet: the one situation in
    /// which a blocking receive has to wait.
    pub open spec fn idle(self) -> bool {
        self.queue.len() == 0 && !self.closed
    }

    /// The channel after a send of `item`: appended when open, refused
    /// without a trace when closed.
    pub open spec fn after_send(self, item: T) -> Self {
        if self.closed {
            self
        } else {
            ChannelView { queue: self.queue.push(item), ..self }
        }
    }

    /// Whom a send has to wake: one thread if the item got in.
    pub open spec fn wake_after_send(self) -> Wake {
        if self.closed {
            Wake::Nobody
        } else {
            Wake::One
        }
    }

    /// What a receive that holds the lock answers. Queued items come first;
    /// only an empty queue shows whether the channel is closed.
    pub open spec fn recv_outcome(self) -> Result<T, ChannelError> {
        if self.queue.len() > 0 {
            Ok(self.queue.first())
        } else if self.closed {
            Err(ChannelError::ChannelClosed)
        } else {
            Err(ChannelError::ChannelEmpty)
        }
    }

    /// What a blocking receive answers once its wait is over. The wait ends
    /// only when the channel is no longer idle, so the answer is an item or
    /// `ChannelClosed`; should the channel be idle all the same, something is
    /// wrong with it and the answer says so.
    pub open spec fn awaited_outcome(self) -> Result<T, ChannelError> {
        if self.idle() {
            Err(ChannelError::Corrupted)
        } else {
            self.recv_outcome()
        }
    }

    /// The channel after a receive: the oldest item is gone, if there was one.
    pub open spec fn after_recv(self) -> Self {
        if self.queue.len() > 0 {
            ChannelView { queue: self.queue.drop_first(), ..self }
        } else {
            self
        }
    }

    /// The channel after a close. The queue is kept for the consumer.
    pub open spec fn after_close(self) -> Self {
        ChannelView { closed: true, ..self }
    }

    /// Whom a close has to wake: everyone, if it is this close that closes
    /// the channel.
    pub open spec fn wake_after_close(self) -> Wake {
        if self.closed {
            Wake::Nobody
        } else {
            Wake::All
        }
    }

    /// The channel after one more sender has come to life. The count stops
    /// at the largest `usize`.
    pub open spec fn after_join(self) -> Self {
        if self.senders < usize::MAX {
            ChannelView { senders: self.senders + 1, ..self }
        } else {
            self
        }
    }

    /// The channel after a sender has gone. When none is left the channel is
    /// closed.
    pub open spec fn after_release(self) -> Self {
        if self.senders > 1 {
            ChannelView { senders: (self.senders - 1) as nat, ..self }
        } else {
            ChannelView { closed: true, senders: 0, ..self }
        }
    }

    /// Whom the going of a sender has to wake: everyone, if it was the last
    /// sender of an open channel.
    pub open spec fn wake_after_release(self) -> Wake {
        if !self.closed && self.senders <= 1 {
            Wake::All
        } else {
            Wake::Nobody
        }
    }
}

} // verus!
