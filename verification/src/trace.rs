use crate::model::{ChannelView, Wake};
use vstd::prelude::*;

verus! {

/// One transition of a channel, as some thread makes it while it holds the
/// lock.
pub enum Op<T> {
    /// A sender offers an item.
    Send(T),
    /// The consumer asks for the oldest item.
    Recv,
    /// A sender closes the channel.
    Close,
    /// A sender is cloned.
    Join,
    /// A sender is given up.
    Release,
}

impl<T> ChannelView<T> {
    /// The channel after one transition.
    pub open spec fn step(self, op: Op<T>) -> Self {
        match op {
            Op::Send(item) => self.after_send(item),
            Op::Recv => self.after_recv(),
            Op::Close => self.after_close(),
            Op::Join => self.after_join(),
            Op::Release => self.after_release(),
        }
    }

    /// Whom the thread that makes the transition has to wake.
    pub open spec fn wake(self, op: Op<T>) -> Wake {
        match op {
            Op::Send(_) => self.wake_after_send(),
            Op::Close => self.wake_after_close(),
            Op::Release => self.wake_after_release(),
            Op::Recv | Op::Join => Wake::Nobody,
        }
    }

    /// The channel after the transitions of `ops`, first to last. Since the
    /// lock lets one thread in at a time, whatever the threads do amounts to
    /// one such sequence.
    pub open spec fn run(self, ops: Seq<Op<T>>) -> Self
        decreases ops.len(),
    {
        if ops.len() == 0 {
            self
        } else {
            self.step(ops.first()).run(ops.drop_first())
        }
    }

    /// The items that the sends of `ops` got into the queue, in order.
    pub open spec fn accepted(self, ops: Seq<Op<T>>) -> Seq<T>
        decreases ops.len(),
    {
        if ops.len() == 0 {
            Seq::empty()
        } else {
            let later = self.step(ops.first()).accepted(ops.drop_first());
            match ops.first() {
                Op::Send(item) if !self.closed => seq![item] + later,
                _ => later,
            }
        }
    }

    /// The items that the receives of `ops` handed out, in order.
    pub open spec fn delivered(self, ops: Seq<Op<T>>) -> Seq<T>
        decreases ops.len(),
    {
        if ops.len() == 0 {
            Seq::empty()
        } else {
            let later = self.step(ops.first()).delivered(ops.drop_first());
            match ops.first() {
                Op::Recv if self.queue.len() > 0 => seq![self.queue.first()] + later,
                _ => later,
            }
        }
    }
}

/// The items that the sends of `ops` offer, accepted or not, in order.
pub open spec fn offered<T>(ops: Seq<Op<T>>) -> Seq<T>
    decreases ops.len(),
{
    if ops.len() == 0 {
        Seq::empty()
    } else {
        match ops.first() {
            Op::Send(item) => seq![item] + offered(ops.drop_first()),
            _ => offered(ops.drop_first()),
        }
    }
}

/// One send for each of `items`, in order.
pub open spec fn sends<T>(items: Seq<T>) -> Seq<Op<T>> {
    Seq::new(items.len(), |i: int| Op::Send(items[i]))
}

/// `n` receives.
pub open spec fn recvs<T>(n: nat) -> Seq<Op<T>> {
    Seq::new(n, |i: int| Op::Recv)
}

/// `n` releases.
pub open spec fn releases<T>(n: nat) -> Seq<Op<T>> {
    Seq::new(n, |i: int| Op::Release)
}

} // verus!
