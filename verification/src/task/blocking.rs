//! The pool of threads that run blocking work: how many of its threads are free.
//!
//! A pool thread counts itself free while it waits for work. A thread that takes
//! work while it is the only free one first asks for a new thread, so that later
//! work finds one waiting; a free thread whose wait times out leaves the pool,
//! unless it is the only free one. After a batch of work a thread leaves the pool
//! if some other thread is free, and otherwise waits again.

use vstd::prelude::*;

verus! {

/// What the pool's bookkeeping holds: the free threads, and the threads that were
/// asked for and have not started yet.
pub struct PoolState {
    /// Threads waiting for work.
    pub free: nat,
    /// Threads asked for that have not started.
    pub starting: nat,
}

/// The events of a pool thread's life.
pub enum PoolEvent {
    /// A thread asked for has started and waits for work.
    ThreadStarted,
    /// A free thread waited in vain.
    Timeout,
    /// A free thread took a piece of work.
    Task,
    /// A thread ran out of work to do.
    BatchDone,
}

/// Whether an event can happen in a state: a thread can only start if one was
/// asked for, and only a free thread can time out or take work.
pub open spec fn pool_enabled(state: PoolState, event: PoolEvent) -> bool {
    match event {
        PoolEvent::ThreadStarted => state.starting >= 1,
        PoolEvent::Timeout => state.free >= 1,
        PoolEvent::Task => state.free >= 1,
        PoolEvent::BatchDone => true,
    }
}

/// The bookkeeping after an event. An event that cannot happen in a state (see
/// [`pool_enabled`]) changes nothing: with no thread asked for none starts, and
/// with no free thread none times out or takes work (the work waits).
pub open spec fn pool_step(state: PoolState, event: PoolEvent) -> PoolState {
    if !pool_enabled(state, event) {
        state
    } else {
        match event {
            PoolEvent::ThreadStarted => PoolState { free: state.free + 1, starting: (state.starting - 1) as nat },
            PoolEvent::Timeout => if state.free == 1 {
                state
            } else {
                PoolState { free: (state.free - 1) as nat, starting: state.starting }
            },
            PoolEvent::Task => PoolState {
                free: (state.free - 1) as nat,
                starting: if state.free == 1 { state.starting + 1 } else { state.starting },
            },
            PoolEvent::BatchDone => if state.free > 0 {
                state
            } else {
                PoolState { free: 1, starting: state.starting }
            },
        }
    }
}

/// The pool can take work: some thread is free, or one is on its way.
pub open spec fn pool_available(state: PoolState) -> bool {
    state.free + state.starting >= 1
}

/// The bookkeeping after a sequence of events, first to last.
pub open spec fn pool_run(state: PoolState, events: Seq<PoolEvent>) -> PoolState
    decreases events.len(),
{
    if events.len() == 0 {
        state
    } else {
        pool_run(pool_step(state, events[0]), events.drop_first())
    }
}

/// Law: the pool never runs dry. From a state in which some thread is free or
/// starting, every sequence of events leads to such a state again: the last free
/// thread never leaves on a timeout, and a thread that takes work while it is the
/// last free one first asks for a new thread.
pub proof fn lemma_pool_stays_available(state: PoolState, events: Seq<PoolEvent>)
    requires
        pool_available(state),
    ensures
        pool_available(pool_run(state, events)),
    decreases events.len(),
{
    if events.len() > 0 {
        lemma_pool_stays_available(pool_step(state, events[0]), events.drop_first());
    }
}

/// Law: a thread that takes work is no longer free. From any state with a free
/// thread, taking work leaves one free thread fewer; and when it was the last
/// free one, exactly one more thread is asked for, otherwise none.
pub proof fn lemma_task_takes_a_free_thread(state: PoolState)
    requires
        state.free >= 1,
    ensures
        pool_step(state, PoolEvent::Task).free + 1 == state.free,
        pool_step(state, PoolEvent::Task).starting == state.starting + (if state.free == 1 { 1int } else { 0int }),
        pool_available(pool_step(state, PoolEvent::Task)),
{
}

/// Law: a thread that starts uses up exactly one of the threads asked for and
/// adds exactly one free thread; the total of free and starting threads stays
/// the same.
pub proof fn lemma_start_uses_one_asked_for(state: PoolState)
    requires
        state.starting >= 1,
    ensures
        pool_step(state, PoolEvent::ThreadStarted).free == state.free + 1,
        pool_step(state, PoolEvent::ThreadStarted).starting + 1 == state.starting,
        pool_step(state, PoolEvent::ThreadStarted).free + pool_step(state, PoolEvent::ThreadStarted).starting
            == state.free + state.starting,
{
}

/// Law: threads asked for are never forgotten. A sequence of starts, each
/// using up one thread asked for, adds one free thread per start.
pub proof fn lemma_starts_count_one_each(state: PoolState, n: nat)
    requires
        n <= state.starting,
    ensures
        pool_run(state, Seq::new(n, |i: int| PoolEvent::ThreadStarted)).free == state.free + n,
        pool_run(state, Seq::new(n, |i: int| PoolEvent::ThreadStarted)).starting + n == state.starting,
    decreases n,
{
    if n > 0 {
        let events = Seq::new(n, |i: int| PoolEvent::ThreadStarted);
        let next = pool_step(state, PoolEvent::ThreadStarted);
        assert(events.drop_first() =~= Seq::new((n - 1) as nat, |i: int| PoolEvent::ThreadStarted));
        lemma_starts_count_one_each(next, (n - 1) as nat);
    }
}

/// Law: a quiet pool shrinks to one waiting thread and keeps it. When nothing
/// but timeouts happens, each timeout retires one free thread until a single
/// one is left, and that one keeps waiting for work.
pub proof fn lemma_quiet_pool_keeps_one_thread(state: PoolState, events: Seq<PoolEvent>)
    requires
        state.free >= 1,
        forall|i: int| 0 <= i < events.len() ==> events[i] is Timeout,
    ensures
        pool_run(state, events).free >= 1,
        pool_run(state, events).starting == state.starting,
        pool_run(state, events).free == if events.len() >= state.free - 1 { 1 } else { state.free - events.len() },
    decreases events.len(),
{
    if events.len() > 0 {
        let rest = events.drop_first();
        assert forall|i: int| 0 <= i < rest.len() implies rest[i] is Timeout by {
            assert(rest[i] == events[i + 1]);
        }
        lemma_quiet_pool_keeps_one_thread(pool_step(state, events[0]), rest);
    }
}

/// The count of free threads of the blocking pool, with the threads asked for.
pub struct BlockingPool {
    free: usize,
    starting: usize,
}

impl View for BlockingPool {
    type V = PoolState;

    closed spec fn view(&self) -> PoolState {
        PoolState { free: self.free as nat, starting: self.starting as nat }
    }
}

impl BlockingPool {
    /// The pool when it is first used: no thread yet, and its first thread asked for.
    pub fn new() -> (pool: Self)
        ensures
            pool@ == (PoolState { free: 0, starting: 1 }),
            pool_available(pool@),
    {
        BlockingPool { free: 0, starting: 1 }
    }

    /// How many threads wait for work.
    pub fn free_threads(&self) -> (free: usize)
        ensures
            free == self@.free,
    {
        self.free
    }

    /// How many threads were asked for and have not started.
    pub fn starting_threads(&self) -> (starting: usize)
        ensures
            starting == self@.starting,
    {
        self.starting
    }

    /// A thread asked for has started and waits for work.
    pub fn thread_started(&mut self)
        requires
            pool_enabled(old(self)@, PoolEvent::ThreadStarted),
            old(self)@.free < usize::MAX,
        ensures
            final(self)@ == pool_step(old(self)@, PoolEvent::ThreadStarted),
            final(self)@.free == old(self)@.free + 1,
            final(self)@.starting == old(self)@.starting - 1,
    {
        self.free = self.free + 1;
        self.starting = self.starting - 1;
    }

    /// A free thread waited in vain: it leaves the pool (`true`) unless it is the
    /// only free thread, in which case it keeps waiting (`false`).
    pub fn on_timeout(&mut self) -> (leave: bool)
        requires
            pool_enabled(old(self)@, PoolEvent::Timeout),
        ensures
            final(self)@ == pool_step(old(self)@, PoolEvent::Timeout),
            final(self)@.free == (if old(self)@.free == 1 { 1 } else { old(self)@.free - 1 }),
            final(self)@.starting == old(self)@.starting,
            leave == (old(self)@.free != 1),
    {
        let before = self.free;
        self.free = self.free - 1;
        if before == 1 {
            self.free = self.free + 1;
            false
        } else {
            true
        }
    }

    /// A free thread took work: it is no longer free, and if it was the only free
    /// thread, a new thread must be started (`true`).
    pub fn on_task(&mut self) -> (start_thread: bool)
        requires
            pool_enabled(old(self)@, PoolEvent::Task),
            old(self)@.starting < usize::MAX,
        ensures
            final(self)@ == pool_step(old(self)@, PoolEvent::Task),
            final(self)@.free == old(self)@.free - 1,
            final(self)@.starting == old(self)@.starting + (if old(self)@.free == 1 { 1int } else { 0int }),
            start_thread == (old(self)@.free == 1),
    {
        let before = self.free;
        self.free = self.free - 1;
        if before == 1 {
            self.starting = self.starting + 1;
            true
        } else {
            false
        }
    }

    /// A thread ran out of work: it leaves the pool (`true`) if some thread is
    /// free, and otherwise counts itself free again and waits (`false`).
    pub fn on_batch_done(&mut self) -> (leave: bool)
        ensures
            final(self)@ == pool_step(old(self)@, PoolEvent::BatchDone),
            final(self)@.free == (if old(self)@.free > 0 { old(self)@.free } else { 1 }),
            final(self)@.starting == old(self)@.starting,
            leave == (old(self)@.free > 0),
    {
        if self.free > 0 {
            true
        } else {
            self.free = 1;
            false
        }
    }
}

} // verus!
