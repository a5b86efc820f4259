//! Giving up a time slice once.

use vstd::prelude::*;
use crate::task::Poll;

verus! {

/// The state of a `yield_now` future: whether it has already yielded.
pub struct YieldNow {
    has_yielded: bool,
}

/// What polling a `yield_now` future gives, and whether it has yielded after the
/// poll, given whether it had yielded before.
pub open spec fn yield_poll(has_yielded: bool) -> (Poll<()>, bool) {
    if has_yielded {
        (Poll::Ready(()), true)
    } else {
        (Poll::Pending, true)
    }
}

/// The results of polling a fresh `yield_now` future `n` times.
pub open spec fn yield_polls(n: nat) -> Seq<Poll<()>>
    decreases n,
{
    if n == 0 {
        Seq::empty()
    } else {
        yield_polls((n - 1) as nat).push(if n == 1 { Poll::Pending } else { Poll::Ready(()) })
    }
}

impl YieldNow {
    /// Whether the future has already yielded.
    pub closed spec fn yielded(&self) -> bool {
        self.has_yielded
    }

    /// A future that has not yielded yet.
    pub fn new() -> (fut: Self)
        ensures
            !fut.yielded(),
    {
        YieldNow { has_yielded: false }
    }

    /// Polls the future: the first poll yields (the caller wakes the task at
    /// once, so it goes to the back of the queue) and every later poll is ready.
    pub fn poll(&mut self) -> (polled: Poll<()>)
        ensures
            (polled, final(self).yielded()) == yield_poll(old(self).yielded()),
    {
        if self.has_yielded {
            Poll::Ready(())
        } else {
            self.has_yielded = true;
            Poll::Pending
        }
    }
}

/// The state of a fresh future after `n` polls, and what those polls gave.
pub open spec fn yield_run(has_yielded: bool, n: nat) -> (bool, Seq<Poll<()>>)
    decreases n,
{
    if n == 0 {
        (has_yielded, Seq::empty())
    } else {
        let (after, polls) = yield_run(has_yielded, (n - 1) as nat);
        let (polled, next) = yield_poll(after);
        (next, polls.push(polled))
    }
}

/// Law: a fresh `yield_now` future is pending exactly once, on its first poll,
/// and ready on every poll after that.
pub proof fn lemma_yields_exactly_once(n: nat)
    ensures
        yield_run(false, n).1 == yield_polls(n),
        n > 0 ==> yield_run(false, n).0,
    decreases n,
{
    if n > 0 {
        lemma_yields_exactly_once((n - 1) as nat);
    }
}

} // verus!
