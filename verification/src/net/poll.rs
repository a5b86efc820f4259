//! Readiness channels: what the event loop records about a registered socket.
//!
//! Each registered socket has an [`Entry`] with two [`Channel`]s, one for reading
//! and one for writing. A task that finds its socket not ready leaves the id of its
//! waker in the channel; when the event loop reports the socket ready, the channel
//! becomes ready for good and hands back every waiting waker, oldest first.

use vstd::prelude::*;
use crossbeam_queue::SegQueue;
use crate::net::util::{is_would_block, may_block};
use crate::task::Poll;

verus! {

#[verifier::external_type_specification]
#[verifier::external_body]
#[verifier::reject_recursive_types(T)]
pub struct ExSegQueue<T>(SegQueue<T>);

/// The items of a queue of waker ids, front (oldest) first.
pub uninterp spec fn seg_queue_items(queue: SegQueue<u64>) -> Seq<u64>;

/// Calls `crossbeam_queue::SegQueue::new`; the new queue is empty.
#[verifier::external_body]
fn seg_queue_new() -> (queue: SegQueue<u64>)
    ensures
        seg_queue_items(queue) == Seq::<u64>::empty(),
{
    SegQueue::new()
}

/// Calls `crossbeam_queue::SegQueue::push`; the value goes to the back of the queue.
#[verifier::external_body]
fn seg_queue_push(queue: &mut SegQueue<u64>, value: u64)
    ensures
        seg_queue_items(*final(queue)) == seg_queue_items(*old(queue)).push(value),
{
    queue.push(value)
}

/// Calls `crossbeam_queue::SegQueue::pop`, turning its `Err(PopError)` into `None`:
/// an empty queue gives nothing and stays empty, otherwise the front item leaves.
#[verifier::external_body]
fn seg_queue_pop(queue: &mut SegQueue<u64>) -> (front: Option<u64>)
    ensures
        seg_queue_items(*old(queue)).len() == 0 ==> {
            &&& front is None
            &&& seg_queue_items(*final(queue)) == seg_queue_items(*old(queue))
        },
        seg_queue_items(*old(queue)).len() > 0 ==> {
            &&& front == Some(seg_queue_items(*old(queue))[0])
            &&& seg_queue_items(*final(queue)) == seg_queue_items(*old(queue)).drop_first()
        },
{
    queue.pop().ok()
}

/// What a [`Channel`] holds: whether it is ready, and the ids of the waiting
/// wakers, oldest first.
pub struct ChannelState {
    /// Whether the event loop has reported this direction ready.
    pub ready: bool,
    /// The ids of the waiting wakers, in the order they were left.
    pub waiting: Seq<u64>,
}

/// The operations that change a [`Channel`].
pub enum ChannelOp {
    /// [`Channel::wait`] with this waker.
    Wait(u64),
    /// [`Channel::make_ready`].
    MakeReady,
    /// [`Channel::poll_ready`] with this waker.
    PollReady(u64),
    /// [`Channel::poll_io`] with this waker, on an attempt that would block or not.
    PollIo(u64, bool),
}

/// The state of a channel after one operation.
pub open spec fn channel_step(state: ChannelState, op: ChannelOp) -> ChannelState {
    match op {
        ChannelOp::Wait(w) => ChannelState { ready: state.ready, waiting: state.waiting.push(w) },
        ChannelOp::MakeReady => ChannelState { ready: true, waiting: Seq::empty() },
        ChannelOp::PollReady(w) => if state.ready {
            state
        } else {
            ChannelState { ready: state.ready, waiting: state.waiting.push(w) }
        },
        ChannelOp::PollIo(w, would_block) => if would_block {
            ChannelState { ready: state.ready, waiting: state.waiting.push(w) }
        } else {
            state
        },
    }
}

/// The state of a channel after a sequence of operations, first to last.
pub open spec fn channel_run(state: ChannelState, ops: Seq<ChannelOp>) -> ChannelState
    decreases ops.len(),
{
    if ops.len() == 0 {
        state
    } else {
        channel_run(channel_step(state, ops[0]), ops.drop_first())
    }
}

/// Law: readiness is permanent. Once the event loop has reported a direction
/// ready, no sequence of operations makes it not ready again.
pub proof fn lemma_readiness_is_permanent(state: ChannelState, ops: Seq<ChannelOp>)
    requires
        state.ready,
    ensures
        channel_run(state, ops).ready,
    decreases ops.len(),
{
    if ops.len() > 0 {
        lemma_readiness_is_permanent(channel_step(state, ops[0]), ops.drop_first());
    }
}

/// Law: no waker is lost. Until the channel is next made ready, the wakers that
/// wait stay waiting, in their order, ahead of any that come later; the next
/// [`Channel::make_ready`] then hands every one of them back.
pub proof fn lemma_waiters_kept_until_ready(state: ChannelState, ops: Seq<ChannelOp>)
    requires
        forall|i: int| 0 <= i < ops.len() ==> !(ops[i] is MakeReady),
    ensures
        channel_run(state, ops).waiting.len() >= state.waiting.len(),
        channel_run(state, ops).waiting.subrange(0, state.waiting.len() as int) == state.waiting,
    decreases ops.len(),
{
    if ops.len() > 0 {
        let next = channel_step(state, ops[0]);
        assert(next.waiting.subrange(0, state.waiting.len() as int) =~= state.waiting);
        let rest = ops.drop_first();
        assert forall|i: int| 0 <= i < rest.len() implies !(rest[i] is MakeReady) by {
            assert(rest[i] == ops[i + 1]);
        }
        lemma_waiters_kept_until_ready(next, rest);
        let last = channel_run(next, rest);
        assert(last.waiting.subrange(0, state.waiting.len() as int)
            =~= last.waiting.subrange(0, next.waiting.len() as int).subrange(0, state.waiting.len() as int));
    }
}

/// One direction (reading or writing) of a registered socket: whether the event
/// loop has seen it ready, and the wakers waiting for that.
pub struct Channel {
    ready: bool,
    wakers: SegQueue<u64>,
}

impl View for Channel {
    type V = ChannelState;

    closed spec fn view(&self) -> ChannelState {
        ChannelState { ready: self.ready, waiting: seg_queue_items(self.wakers) }
    }
}

impl Channel {

    /// A channel that is not ready and has nobody waiting.
    pub fn new() -> (channel: Self)
        ensures
            !channel@.ready,
            channel@.waiting == Seq::<u64>::empty(),
    {
        Channel { ready: false, wakers: seg_queue_new() }
    }

    /// Whether the event loop has reported this direction ready.
    pub fn is_ready(&self) -> (ready: bool)
        ensures
            ready == self@.ready,
    {
        self.ready
    }

    /// Leaves the waker `waker` to be woken once the channel becomes ready.
    pub fn wait(&mut self, waker: u64)
        ensures
            final(self)@ == channel_step(old(self)@, ChannelOp::Wait(waker)),
    {
        seg_queue_push(&mut self.wakers, waker);
    }

    /// Marks the channel ready and hands back every waiting waker, oldest first;
    /// nobody is left waiting.
    pub fn make_ready(&mut self) -> (woken: Vec<u64>)
        ensures
            final(self)@ == channel_step(old(self)@, ChannelOp::MakeReady),
            woken@ == old(self)@.waiting,
    {
        if !self.ready {
            self.ready = true;
        }
        let mut woken: Vec<u64> = Vec::new();
        loop
            invariant
                self.ready,
                woken@ + seg_queue_items(self.wakers) == old(self)@.waiting,
            decreases seg_queue_items(self.wakers).len(),
        {
            let ghost before = seg_queue_items(self.wakers);
            match seg_queue_pop(&mut self.wakers) {
                Some(waker) => {
                    woken.push(waker);
                    assert(woken@ + seg_queue_items(self.wakers) =~= old(self)@.waiting) by {
                        assert(before =~= seq![waker] + before.drop_first());
                    }
                },
                None => {
                    assert(seg_queue_items(self.wakers) =~= Seq::<u64>::empty());
                    assert(woken@ =~= old(self)@.waiting);
                    return woken;
                },
            }
        }
    }

    /// One poll of "wait until ready": a channel that is not ready yet keeps the
    /// waker `waker` and answers pending; a ready channel answers ready.
    pub fn poll_ready(&mut self, waker: u64) -> (polled: Poll<()>)
        ensures
            final(self)@ == channel_step(old(self)@, ChannelOp::PollReady(waker)),
            polled == (if old(self)@.ready { Poll::Ready(()) } else { Poll::Pending }),
    {
        if !self.ready {
            self.wait(waker);
        }
        if self.ready {
            Poll::Ready(())
        } else {
            Poll::Pending
        }
    }

    /// The first try of a non-blocking operation on this direction: a result
    /// that would block leaves the waker `waker` and answers pending (the caller
    /// then tries once more, since readiness may have come in between); any
    /// other result is ready as it is.
    pub fn poll_io<R>(&mut self, waker: u64, attempt: Result<R, std::io::Error>) -> (polled: Poll<Result<R, std::io::Error>>)
        ensures
            final(self)@ == channel_step(old(self)@, ChannelOp::PollIo(waker, is_would_block(attempt))),
            polled == (if is_would_block(attempt) { Poll::Pending } else { Poll::Ready(attempt) }),
    {
        let polled = may_block(attempt);
        if let Poll::Pending = polled {
            self.wait(waker);
        }
        polled
    }
}

/// The readiness record of one registered socket.
pub struct Entry {
    /// Readiness for reading.
    pub reader: Channel,
    /// Readiness for writing.
    pub writer: Channel,
}

impl Entry {
    /// A record in which neither direction is ready and nobody waits.
    pub fn new() -> (entry: Self)
        ensures
            !entry.reader@.ready,
            !entry.writer@.ready,
            entry.reader@.waiting == Seq::<u64>::empty(),
            entry.writer@.waiting == Seq::<u64>::empty(),
    {
        Entry { reader: Channel::new(), writer: Channel::new() }
    }

    /// Leaves a waker until the socket is readable.
    pub fn read(&mut self, waker: u64)
        ensures
            final(self).reader@.ready == old(self).reader@.ready,
            final(self).reader@.waiting == old(self).reader@.waiting.push(waker),
            final(self).writer == old(self).writer,
    {
        self.reader.wait(waker);
    }

    /// Leaves a waker until the socket is writable.
    pub fn write(&mut self, waker: u64)
        ensures
            final(self).writer@.ready == old(self).writer@.ready,
            final(self).writer@.waiting == old(self).writer@.waiting.push(waker),
            final(self).reader == old(self).reader,
    {
        self.writer.wait(waker);
    }

    /// What the event loop does with one event for this socket: a readable event
    /// makes the reader ready, a writable event the writer; the wakers to wake are
    /// handed back, those of the reader first.
    pub fn on_event(&mut self, readable: bool, writable: bool) -> (woken: Vec<u64>)
        ensures
            final(self).reader@.ready == (old(self).reader@.ready || readable),
            final(self).writer@.ready == (old(self).writer@.ready || writable),
            final(self).reader@.waiting == (if readable { Seq::<u64>::empty() } else { old(self).reader@.waiting }),
            final(self).writer@.waiting == (if writable { Seq::<u64>::empty() } else { old(self).writer@.waiting }),
            woken@ == (if readable { old(self).reader@.waiting } else { Seq::<u64>::empty() })
                + (if writable { old(self).writer@.waiting } else { Seq::<u64>::empty() }),
    {
        let mut woken: Vec<u64> = Vec::new();
        if readable {
            woken = self.reader.make_ready();
        }
        if writable {
            let mut more = self.writer.make_ready();
            woken.append(&mut more);
        }
        proof {
            if !readable && !writable {
                assert(woken@ =~= Seq::<u64>::empty() + Seq::<u64>::empty());
            }
            if readable && !writable {
                assert(woken@ =~= old(self).reader@.waiting + Seq::<u64>::empty());
            }
            if !readable && writable {
                assert(woken@ =~= Seq::<u64>::empty() + old(self).writer@.waiting);
            }
        }
        woken
    }
}

} // verus!
