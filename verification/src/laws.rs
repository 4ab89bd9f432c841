use crate::error::ChannelError;
use crate::model::{ChannelView, Phase, Wake};
use crate::trace::{offered, recvs, releases, sends, Op};
use vstd::prelude::*;

verus! {

/// Every step keeps the rule that a channel without senders is closed.
pub proof fn lemma_step_keeps_wf<T>(s: ChannelView<T>, op: Op<T>)
    requires
        s.wf(),
    ensures
        s.step(op).wf(),
{
}

/// No step opens a closed channel, and none adds to its queue.
pub proof fn lemma_step_keeps_closed<T>(s: ChannelView<T>, op: Op<T>)
    requires
        s.closed,
    ensures
        s.step(op).closed,
        s.step(op).queue.len() <= s.queue.len(),
{
}

/// Nothing is lost and nothing doubled: whatever the order of the
/// transitions, the items that were queued at the start followed by those
/// that sends got in are exactly the items handed out followed by those
/// still queued.
pub proof fn lemma_conservation<T>(s: ChannelView<T>, ops: Seq<Op<T>>)
    ensures
        s.queue + s.accepted(ops) == s.delivered(ops) + s.run(ops).queue,
    decreases ops.len(),
{
    if ops.len() == 0 {
        assert(s.queue + s.accepted(ops) =~= s.delivered(ops) + s.run(ops).queue);
    } else {
        let next = s.step(ops.first());
        let rest = ops.drop_first();
        lemma_conservation(next, rest);
        assert(s.run(ops) == next.run(rest));
        match ops.first() {
            Op::Send(item) => {
                assert(s.delivered(ops) == next.delivered(rest));
                if !s.closed {
                    assert(s.accepted(ops) == seq![item] + next.accepted(rest));
                    assert(s.queue + (seq![item] + next.accepted(rest)) =~= next.queue
                        + next.accepted(rest));
                } else {
                    assert(s.accepted(ops) == next.accepted(rest));
                }
            },
            Op::Recv => {
                assert(s.accepted(ops) == next.accepted(rest));
                if s.queue.len() > 0 {
                    assert(s.delivered(ops) == seq![s.queue.first()] + next.delivered(rest));
                    assert(s.queue =~= seq![s.queue.first()] + next.queue);
                    assert(s.queue + next.accepted(rest) =~= seq![s.queue.first()] + (next.queue
                        + next.accepted(rest)));
                    assert((seq![s.queue.first()] + next.delivered(rest)) + next.run(rest).queue
                        =~= seq![s.queue.first()] + (next.delivered(rest) + next.run(rest).queue));
                } else {
                    assert(s.delivered(ops) == next.delivered(rest));
                }
            },
            _ => {
                assert(s.accepted(ops) == next.accepted(rest));
                assert(s.delivered(ops) == next.delivered(rest));
            },
        }
    }
}

/// Items leave in the order in which they got in, whatever else happens in
/// between: what has been handed out is always the front of what was queued
/// at the start followed by what sends got in.
pub proof fn lemma_fifo_in_any_order<T>(s: ChannelView<T>, ops: Seq<Op<T>>)
    ensures
        s.delivered(ops).len() <= s.queue.len() + s.accepted(ops).len(),
        s.delivered(ops) == (s.queue + s.accepted(ops)).take(s.delivered(ops).len() as int),
{
    lemma_conservation(s, ops);
    let handed = s.delivered(ops);
    let left = s.run(ops).queue;
    assert((s.queue + s.accepted(ops)).len() == (handed + left).len());
    assert((handed + left).take(handed.len() as int) =~= handed);
}

/// Running one sequence of transitions after another is running the two as
/// one.
pub proof fn lemma_run_concat<T>(s: ChannelView<T>, a: Seq<Op<T>>, b: Seq<Op<T>>)
    ensures
        s.run(a + b) == s.run(a).run(b),
        s.accepted(a + b) == s.accepted(a) + s.run(a).accepted(b),
        s.delivered(a + b) == s.delivered(a) + s.run(a).delivered(b),
    decreases a.len(),
{
    if a.len() == 0 {
        assert(a + b =~= b);
        assert(s.accepted(a) + s.run(a).accepted(b) =~= s.accepted(b));
        assert(s.delivered(a) + s.run(a).delivered(b) =~= s.delivered(b));
    } else {
        let next = s.step(a.first());
        assert((a + b).first() == a.first());
        assert((a + b).drop_first() =~= a.drop_first() + b);
        lemma_run_concat(next, a.drop_first(), b);
        let acc_a = next.accepted(a.drop_first());
        let del_a = next.delivered(a.drop_first());
        let acc_b = s.run(a).accepted(b);
        let del_b = s.run(a).delivered(b);
        match a.first() {
            Op::Send(item) => {
                if !s.closed {
                    assert(seq![item] + (acc_a + acc_b) =~= (seq![item] + acc_a) + acc_b);
                }
            },
            Op::Recv => {
                if s.queue.len() > 0 {
                    assert(seq![s.queue.first()] + (del_a + del_b) =~= (seq![s.queue.first()]
                        + del_a) + del_b);
                }
            },
            _ => {},
        }
    }
}

/// Sends to an open channel all get in, in order, and hand nothing out.
pub proof fn lemma_sends_to_open<T>(s: ChannelView<T>, items: Seq<T>)
    requires
        !s.closed,
    ensures
        s.run(sends(items)) == (ChannelView { queue: s.queue + items, ..s }),
        s.accepted(sends(items)) == items,
        s.delivered(sends(items)) == Seq::<T>::empty(),
    decreases items.len(),
{
    let ops = sends(items);
    if items.len() == 0 {
        assert(s.queue + items =~= s.queue);
        assert(s.accepted(ops) =~= items);
    } else {
        let next = s.after_send(items.first());
        assert(ops.first() == Op::Send(items.first()));
        assert(ops.drop_first() =~= sends(items.drop_first()));
        lemma_sends_to_open(next, items.drop_first());
        assert(next.queue + items.drop_first() =~= s.queue + items);
        assert(seq![items.first()] + items.drop_first() =~= items);
    }
}

/// `n` receives from a queue of at least `n` items hand out its first `n`
/// and leave the rest.
pub proof fn lemma_recvs_take_front<T>(s: ChannelView<T>, n: nat)
    requires
        n <= s.queue.len(),
    ensures
        s.run(recvs(n)) == (ChannelView { queue: s.queue.skip(n as int), ..s }),
        s.delivered(recvs(n)) == s.queue.take(n as int),
        s.accepted(recvs(n)) == Seq::<T>::empty(),
    decreases n,
{
    let ops = recvs::<T>(n);
    if n == 0 {
        assert(s.queue.skip(0) =~= s.queue);
        assert(s.queue.take(0) =~= Seq::<T>::empty());
    } else {
        let next = s.after_recv();
        assert(ops.first() == Op::<T>::Recv);
        assert(ops.drop_first() =~= recvs::<T>((n - 1) as nat));
        lemma_recvs_take_front(next, (n - 1) as nat);
        assert(next.queue.skip(n - 1) =~= s.queue.skip(n as int));
        assert(seq![s.queue.first()] + next.queue.take(n - 1) =~= s.queue.take(n as int));
    }
}

/// First in, first out: after any sends to an open channel, `n` receives
/// hand out the `n` oldest items, oldest first. On an empty channel, as many
/// receives as there were sends return the items in the order of the sends.
pub proof fn lemma_fifo<T>(s: ChannelView<T>, items: Seq<T>, n: nat)
    requires
        !s.closed,
        n <= s.queue.len() + items.len(),
    ensures
        s.delivered(sends(items) + recvs(n)) == (s.queue + items).take(n as int),
        s.queue.len() == 0 && n == items.len() ==> s.delivered(sends(items) + recvs(n)) == items,
{
    lemma_run_concat(s, sends(items), recvs(n));
    lemma_sends_to_open(s, items);
    lemma_recvs_take_front(s.run(sends(items)), n);
    assert(Seq::<T>::empty() + (s.queue + items).take(n as int) =~= (s.queue + items).take(
        n as int,
    ));
    if s.queue.len() == 0 && n == items.len() {
        assert((s.queue + items).take(n as int) =~= items);
    }
}

/// Whatever the transitions, a channel without senders is closed at the end
/// if that held at the start.
pub proof fn lemma_run_keeps_wf<T>(s: ChannelView<T>, ops: Seq<Op<T>>)
    requires
        s.wf(),
    ensures
        s.run(ops).wf(),
    decreases ops.len(),
{
    if ops.len() > 0 {
        lemma_step_keeps_wf(s, ops.first());
        lemma_run_keeps_wf(s.step(ops.first()), ops.drop_first());
    }
}

/// Closing is for good. Once a channel is closed it stays closed, every
/// later send is refused, and its queue only gives items out: what was
/// queued is what has been handed out since followed by what is left.
pub proof fn lemma_closed_is_final<T>(s: ChannelView<T>, ops: Seq<Op<T>>)
    requires
        s.closed,
    ensures
        s.run(ops).closed,
        s.accepted(ops) == Seq::<T>::empty(),
        s.queue == s.delivered(ops) + s.run(ops).queue,
    decreases ops.len(),
{
    if ops.len() > 0 {
        lemma_step_keeps_closed(s, ops.first());
        lemma_closed_is_final(s.step(ops.first()), ops.drop_first());
    }
    lemma_conservation(s, ops);
    assert(s.queue + Seq::<T>::empty() =~= s.queue);
}

/// A send that follows a close is refused and changes nothing.
pub proof fn lemma_send_after_close<T>(s: ChannelView<T>, item: T)
    ensures
        s.after_close().after_send(item) == s.after_close(),
        s.run(seq![Op::Close, Op::Send(item)]) == s.after_close(),
        s.accepted(seq![Op::Close, Op::Send(item)]) == Seq::<T>::empty(),
{
    let ops = seq![Op::Close, Op::Send(item)];
    let rest = seq![Op::Send(item)];
    assert(ops.drop_first() =~= rest);
    assert(rest.drop_first() =~= Seq::<Op<T>>::empty());
    assert(s.after_close().run(rest) == s.after_close().after_send(item).run(rest.drop_first()));
    assert(s.after_close().accepted(rest) == s.after_close().after_send(item).accepted(
        rest.drop_first(),
    ));
}

/// While a channel is open, every item offered to it got in. So a run that
/// ends on an open channel has accepted exactly what its sends offered.
pub proof fn lemma_open_accepts_all<T>(s: ChannelView<T>, ops: Seq<Op<T>>)
    requires
        !s.run(ops).closed,
    ensures
        s.accepted(ops) == offered(ops),
    decreases ops.len(),
{
    if ops.len() > 0 {
        if s.closed {
            lemma_closed_is_final(s, ops);
        }
        lemma_open_accepts_all(s.step(ops.first()), ops.drop_first());
    }
}

/// Every item arrives exactly once. Take any interleaving of the sends of
/// any number of producers with the receives of the consumer, on a channel
/// that starts empty and is not closed meanwhile. Once as many items have
/// been handed out as were offered, the items handed out are the items
/// offered, each one once, in the order in which the sends came to the lock.
pub proof fn lemma_every_item_once<T>(s: ChannelView<T>, ops: Seq<Op<T>>)
    requires
        s.queue.len() == 0,
        !s.run(ops).closed,
        s.delivered(ops).len() == offered(ops).len(),
    ensures
        s.delivered(ops) == offered(ops),
        s.delivered(ops).to_multiset() == offered(ops).to_multiset(),
        s.run(ops).queue.len() == 0,
{
    lemma_open_accepts_all(s, ops);
    lemma_fifo_in_any_order(s, ops);
    lemma_conservation(s, ops);
    assert(s.queue + offered(ops) =~= offered(ops));
    assert(offered(ops).take(offered(ops).len() as int) =~= offered(ops));
}

/// Drain before closed: on a closed channel the consumer is first handed
/// every queued item, oldest first, and is told that the channel is closed
/// only by the receive after the last of them.
pub proof fn lemma_drain_before_closed<T>(s: ChannelView<T>, k: nat)
    requires
        s.closed,
        k <= s.queue.len(),
    ensures
        k < s.queue.len() ==> s.run(recvs(k)).recv_outcome() == Ok::<T, ChannelError>(
            s.queue[k as int],
        ),
        k == s.queue.len() ==> s.run(recvs(k)).recv_outcome() == Err::<T, ChannelError>(
            ChannelError::ChannelClosed,
        ),
{
    lemma_recvs_take_front(s, k);
}

/// The same holds from the close on: whatever was queued when the channel
/// was closed is still handed out, in order, before the consumer is told.
pub proof fn lemma_close_keeps_queue<T>(s: ChannelView<T>, k: nat)
    requires
        k <= s.queue.len(),
    ensures
        s.after_close().queue == s.queue,
        k < s.queue.len() ==> s.after_close().run(recvs(k)).recv_outcome() == Ok::<
            T,
            ChannelError,
        >(s.queue[k as int]),
        k == s.queue.len() ==> s.after_close().run(recvs(k)).recv_outcome() == Err::<
            T,
            ChannelError,
        >(ChannelError::ChannelClosed),
{
    lemma_drain_before_closed(s.after_close(), k);
}

/// A closed channel never makes the consumer wait: after any transitions it
/// has an item to hand out or answers that it is closed.
pub proof fn lemma_closed_never_idle<T>(s: ChannelView<T>, ops: Seq<Op<T>>)
    requires
        s.closed,
    ensures
        !s.run(ops).idle(),
        s.run(ops).recv_outcome() != Err::<T, ChannelError>(ChannelError::ChannelEmpty),
{
    lemma_closed_is_final(s, ops);
}

/// When the last sender goes, the channel closes and keeps its queue.
pub proof fn lemma_last_release_closes<T>(s: ChannelView<T>)
    requires
        s.senders <= 1,
    ensures
        s.after_release().closed,
        s.after_release().senders == 0,
        s.after_release().queue == s.queue,
        !s.after_release().idle(),
{
}

/// Once every sender is gone the channel is closed, with its queue intact:
/// as many releases as there are senders, or more, close it.
pub proof fn lemma_all_released<T>(s: ChannelView<T>, n: nat)
    requires
        s.wf(),
        n >= s.senders,
    ensures
        s.run(releases(n)).closed,
        s.run(releases(n)).queue == s.queue,
    decreases n,
{
    let ops = releases::<T>(n);
    if n > 0 {
        assert(ops.first() == Op::<T>::Release);
        assert(ops.drop_first() =~= releases::<T>((n - 1) as nat));
        lemma_all_released(s.after_release(), (n - 1) as nat);
    }
}

/// Closing twice is closing once, and closing a channel that is closed
/// already, by a close or because its last sender went, changes nothing.
pub proof fn lemma_close_idempotent<T>(s: ChannelView<T>)
    ensures
        s.after_close().after_close() == s.after_close(),
        s.closed ==> s.after_close() == s,
        s.wf() && s.senders == 0 ==> s.after_close() == s,
        s.senders <= 1 ==> s.after_release().after_close() == s.after_release(),
{
}

/// No wake-up is lost. The consumer waits only while the channel is idle,
/// and whatever transition ends that wakes: an item that got in wakes one
/// thread, and the closing of the channel, by a close or by the going of the
/// last sender, wakes them all.
pub proof fn lemma_wake_when_idleness_ends<T>(s: ChannelView<T>, op: Op<T>)
    requires
        s.idle(),
        !s.step(op).idle(),
    ensures
        s.wake(op) != Wake::Nobody,
        s.step(op).closed ==> s.wake(op) == Wake::All,
        !s.step(op).closed ==> op is Send && s.wake(op) == Wake::One,
{
}

/// Every transition that closes an open channel wakes all waiting threads,
/// and none but a send, a close or a release wakes anyone.
pub proof fn lemma_closing_wakes_all<T>(s: ChannelView<T>, op: Op<T>)
    ensures
        !s.closed && s.step(op).closed ==> s.wake(op) == Wake::All,
        s.step(op) == s ==> s.wake(op) == Wake::Nobody,
{
    if s.step(op) == s {
        match op {
            Op::Send(item) => {
                if !s.closed {
                    assert(s.step(op).queue.len() == s.queue.len() + 1);
                }
            },
            _ => {},
        }
    }
}

/// A channel moves from open to draining to closed and never back. Once it
/// is closed and empty, no transition changes what it holds or what it
/// answers.
pub proof fn lemma_phases_only_advance<T>(s: ChannelView<T>, op: Op<T>)
    ensures
        s.phase() is Draining ==> !(s.step(op).phase() is Open),
        s.phase() is Closed ==> s.step(op).phase() is Closed,
        s.phase() is Closed ==> s.step(op).queue == s.queue && s.wake(op) == Wake::Nobody,
{
}

} // verus!
