//! The executor: the round of stealing a worker does when its own queue is
//! empty, and the idle workers, the worker threads that found no task and sleep
//! until a new task is scheduled. A newly scheduled task wakes the worker that
//! went to sleep first.

use vstd::prelude::*;
use crossbeam_deque::{Injector, Steal, Stealer, Worker};
use crossbeam_queue::ArrayQueue;

verus! {

#[verifier::external_type_specification]
#[verifier::external_body]
#[verifier::reject_recursive_types(T)]
pub struct ExArrayQueue<T>(ArrayQueue<T>);

/// The items of a bounded queue of worker indices, front (oldest) first.
pub uninterp spec fn array_queue_items(queue: ArrayQueue<usize>) -> Seq<usize>;

/// The capacity that a bounded queue of worker indices was made with.
pub uninterp spec fn array_queue_capacity(queue: ArrayQueue<usize>) -> nat;

/// Calls `crossbeam_queue::ArrayQueue::new`, which panics on a capacity of zero
/// and cannot allocate more slots than the address space holds; the new queue is
/// empty and has capacity `cap`.
#[verifier::external_body]
fn array_queue_new(cap: usize) -> (queue: ArrayQueue<usize>)
    requires
        cap > 0,
        cap * 16 <= isize::MAX,
    ensures
        array_queue_items(queue) == Seq::<usize>::empty(),
        array_queue_capacity(queue) == cap,
{
    ArrayQueue::new(cap)
}

/// Calls `crossbeam_queue::ArrayQueue::push`, turning its `Err(PushError(_))` into
/// `false`: a queue below its capacity takes the value at the back, a full one
/// refuses it and stays as it was.
#[verifier::external_body]
fn array_queue_push(queue: &mut ArrayQueue<usize>, value: usize) -> (pushed: bool)
    ensures
        array_queue_capacity(*final(queue)) == array_queue_capacity(*old(queue)),
        pushed == (array_queue_items(*old(queue)).len() < array_queue_capacity(*old(queue))),
        pushed ==> array_queue_items(*final(queue)) == array_queue_items(*old(queue)).push(value),
        !pushed ==> array_queue_items(*final(queue)) == array_queue_items(*old(queue)),
{
    queue.push(value).is_ok()
}

/// Calls `crossbeam_queue::ArrayQueue::pop`, turning its `Err(PopError)` into
/// `None`: an empty queue gives nothing, otherwise the front item leaves.
#[verifier::external_body]
fn array_queue_pop(queue: &mut ArrayQueue<usize>) -> (front: Option<usize>)
    ensures
        array_queue_capacity(*final(queue)) == array_queue_capacity(*old(queue)),
        array_queue_items(*old(queue)).len() == 0 ==> {
            &&& front is None
            &&& array_queue_items(*final(queue)) == array_queue_items(*old(queue))
        },
        array_queue_items(*old(queue)).len() > 0 ==> {
            &&& front == Some(array_queue_items(*old(queue))[0])
            &&& array_queue_items(*final(queue)) == array_queue_items(*old(queue)).drop_first()
        },
{
    queue.pop().ok()
}

/// The sleeping workers of an executor with a fixed number of worker threads.
pub struct IdleWorkers {
    queue: ArrayQueue<usize>,
}

impl IdleWorkers {
    /// The indices of the sleeping workers, in the order they went to sleep.
    pub closed spec fn idle(&self) -> Seq<usize> {
        array_queue_items(self.queue)
    }

    /// How many workers can sleep at once: the number of worker threads.
    pub closed spec fn capacity(&self) -> nat {
        array_queue_capacity(self.queue)
    }

    /// No worker sleeps yet, among `workers` worker threads (at least one).
    pub fn new(workers: usize) -> (idle: Self)
        requires
            workers > 0,
            workers * 16 <= isize::MAX,
        ensures
            idle.idle() == Seq::<usize>::empty(),
            idle.capacity() == workers,
    {
        IdleWorkers { queue: array_queue_new(workers) }
    }

    /// Worker `worker` found no task and goes to sleep. This is refused (`false`)
    /// only when as many workers as there are threads already sleep.
    pub fn park(&mut self, worker: usize) -> (parked: bool)
        ensures
            final(self).capacity() == old(self).capacity(),
            parked == (old(self).idle().len() < old(self).capacity()),
            parked ==> final(self).idle() == old(self).idle().push(worker),
            !parked ==> final(self).idle() == old(self).idle(),
    {
        array_queue_push(&mut self.queue, worker)
    }

    /// A task was scheduled: the worker that went to sleep first is woken, if
    /// any worker sleeps.
    pub fn wake_one(&mut self) -> (woken: Option<usize>)
        ensures
            final(self).capacity() == old(self).capacity(),
            old(self).idle().len() == 0 ==> woken is None && final(self).idle() == old(self).idle(),
            old(self).idle().len() > 0 ==> {
                &&& woken == Some(old(self).idle()[0])
                &&& final(self).idle() == old(self).idle().drop_first()
            },
    {
        array_queue_pop(&mut self.queue)
    }
}

/// Law: a worker can always go to sleep. When each of `workers` worker threads
/// sleeps at most once at a time, a worker that is not asleep finds room among
/// the sleepers, so parking it is never refused.
pub proof fn lemma_park_never_refused(idle: Seq<usize>, worker: usize, workers: nat)
    requires
        idle.no_duplicates(),
        forall|i: int| 0 <= i < idle.len() ==> idle[i] < workers,
        worker < workers,
        !idle.contains(worker),
    ensures
        idle.len() < workers,
{
    let ints = idle.map_values(|v: usize| v as int);
    assert(ints.no_duplicates()) by {
        assert forall|i: int, j: int| 0 <= i < ints.len() && 0 <= j < ints.len() && i != j implies ints[i] != ints[j] by {
            assert(idle[i] != idle[j]);
        }
    }
    let range = vstd::set_lib::set_int_range(0, workers as int).remove(worker as int);
    vstd::set_lib::lemma_int_range(0, workers as int);
    assert(range.len() == workers - 1);
    assert(ints.to_set().subset_of(range)) by {
        assert forall|x: int| ints.to_set().contains(x) implies range.contains(x) by {
            let i = choose|i: int| 0 <= i < ints.len() && ints[i] == x;
            assert(idle[i] < workers);
            assert(idle[i] != worker) by {
                if idle[i] == worker {
                    assert(idle.contains(worker));
                }
            }
        }
    }
    vstd::set_lib::lemma_len_subset(ints.to_set(), range);
    ints.unique_seq_to_set();
}


#[verifier::external_type_specification]
#[verifier::external_body]
#[verifier::reject_recursive_types(T)]
pub struct ExWorker<T>(Worker<T>);

#[verifier::external_type_specification]
#[verifier::external_body]
#[verifier::reject_recursive_types(T)]
pub struct ExInjector<T>(Injector<T>);

#[verifier::external_type_specification]
#[verifier::external_body]
#[verifier::reject_recursive_types(T)]
pub struct ExStealer<T>(Stealer<T>);

/// The outcome of an attempt to steal a task.
pub enum Stolen<T> {
    /// There was nothing to steal.
    Empty,
    /// A task, taken from a queue.
    Success(T),
    /// The attempt lost a race with another thread and should be retried.
    Retry,
}

/// The outcome of trying `first` and, when it stole nothing, `second`: a task
/// from either if there is one, else "retry" if either asked for it, else empty.
pub open spec fn steal_or_else_spec<T>(first: Stolen<T>, second: Stolen<T>) -> Stolen<T> {
    match first {
        Stolen::Success(_) => first,
        Stolen::Empty => second,
        Stolen::Retry => if second is Success { second } else { Stolen::Retry },
    }
}

/// The outcome of several attempts made in turn, stopping at the first task
/// stolen: that task, else "retry" if any attempt asked for it, else empty.
pub open spec fn steal_collect_spec<T>(outcomes: Seq<Stolen<T>>) -> Stolen<T>
    decreases outcomes.len(),
{
    if outcomes.len() == 0 {
        Stolen::Empty
    } else {
        let rest = steal_collect_spec(outcomes.drop_first());
        match outcomes[0] {
            Stolen::Success(_) => outcomes[0],
            Stolen::Empty => rest,
            Stolen::Retry => if rest is Success { rest } else { Stolen::Retry },
        }
    }
}

/// Calls `crossbeam_deque::Injector::steal_batch_and_pop`, which moves a batch of
/// tasks from the global queue into `local` and pops one of them, and tells the
/// variants of its `Steal` apart. What it steals depends on the other threads at
/// that instant, so nothing is claimed of the result.
#[verifier::external_body]
fn injector_steal_batch_and_pop<T>(global: &Injector<T>, local: &Worker<T>) -> Stolen<T> {
    match global.steal_batch_and_pop(local) {
        Steal::Empty => Stolen::Empty,
        Steal::Success(task) => Stolen::Success(task),
        Steal::Retry => Stolen::Retry,
    }
}

/// Calls `crossbeam_deque::Stealer::steal`, which takes one task from another
/// worker's queue, and tells the variants of its `Steal` apart. What it steals
/// depends on the other threads at that instant, so nothing is claimed of the
/// result.
#[verifier::external_body]
fn stealer_steal<T>(stealer: &Stealer<T>) -> Stolen<T> {
    match stealer.steal() {
        Steal::Empty => Stolen::Empty,
        Steal::Success(task) => Stolen::Success(task),
        Steal::Retry => Stolen::Retry,
    }
}

/// Calls `crossbeam_deque::Steal::or_else` on `first` with a closure that gives
/// `second`, converting both ways between `Steal` and [`Stolen`]. The contract
/// claims what the crate's source does: `first` if it stole a task, otherwise
/// `second` if it did, otherwise "retry" if either asked for it, else empty.
#[verifier::external_body]
fn steal_or_else<T>(first: Stolen<T>, second: Stolen<T>) -> (stolen: Stolen<T>)
    ensures
        stolen == steal_or_else_spec(first, second),
{
    let second = match second {
        Stolen::Empty => Steal::Empty,
        Stolen::Success(task) => Steal::Success(task),
        Stolen::Retry => Steal::Retry,
    };
    let first = match first {
        Stolen::Empty => Steal::Empty,
        Stolen::Success(task) => Steal::Success(task),
        Stolen::Retry => Steal::Retry,
    };
    match first.or_else(move || second) {
        Steal::Empty => Stolen::Empty,
        Steal::Success(task) => Stolen::Success(task),
        Steal::Retry => Stolen::Retry,
    }
}

/// Collects outcomes into one through crossbeam's `FromIterator` for `Steal`,
/// converting both ways between `Steal` and [`Stolen`]. The contract claims what
/// the crate's source does: the first task stolen, else "retry" if any outcome
/// asked for it, else empty.
#[verifier::external_body]
fn steal_collect<T>(outcomes: Vec<Stolen<T>>) -> (stolen: Stolen<T>)
    ensures
        stolen == steal_collect_spec(outcomes@),
{
    let combined: Steal<T> = outcomes.into_iter().map(|outcome| match outcome {
        Stolen::Empty => Steal::Empty,
        Stolen::Success(task) => Steal::Success(task),
        Stolen::Retry => Steal::Retry,
    }).collect();
    match combined {
        Steal::Empty => Stolen::Empty,
        Steal::Success(task) => Stolen::Success(task),
        Steal::Retry => Stolen::Retry,
    }
}

/// Combines the outcome of stealing from the global queue with that of stealing
/// from the other workers, tried only when the first stole nothing.
pub fn combine_rounds<T>(from_global: Stolen<T>, from_others: Stolen<T>) -> (stolen: Stolen<T>)
    ensures
        stolen == steal_or_else_spec(from_global, from_others),
{
    steal_or_else(from_global, from_others)
}

/// Combines the outcomes of stealing from the other workers one after another,
/// the attempts stopping at the first task stolen.
pub fn combine_steals<T>(outcomes: Vec<Stolen<T>>) -> (stolen: Stolen<T>)
    ensures
        stolen == steal_collect_spec(outcomes@),
{
    steal_collect(outcomes)
}

/// `outcome` is a result that one steal from `stealer` can give: it was given
/// by a call of `Stealer::steal` on that stealer.
pub closed spec fn steal_gives<T>(stealer: &Stealer<T>, outcome: Stolen<T>) -> bool {
    call_ensures(stealer_steal::<T>, (stealer,), outcome)
}

/// `outcome` is a result that one batch steal from the global queue into
/// `local` can give: it was given by a call of `Injector::steal_batch_and_pop`.
pub closed spec fn global_steal_gives<T>(global: &Injector<T>, local: &Worker<T>, outcome: Stolen<T>) -> bool {
    call_ensures(injector_steal_batch_and_pop::<T>, (global, local), outcome)
}

/// `popped` is a result that popping the worker's own queue can give: it was
/// given by a call of `Worker::pop` on that queue.
pub closed spec fn pop_gives<T>(local: &Worker<T>, popped: Option<T>) -> bool {
    call_ensures(worker_pop::<T>, (local,), popped)
}

/// `outcomes` are the results of stealing from `stealers[0]`, `stealers[1]`, ...
/// in that order, one steal each, stopping at the first task taken (or after
/// the last stealer).
pub open spec fn steal_sequence<T>(stealers: Seq<Stealer<T>>, outcomes: Seq<Stolen<T>>) -> bool {
    &&& outcomes.len() <= stealers.len()
    &&& forall|i: int| 0 <= i < outcomes.len() ==> #[trigger] steal_gives(&stealers[i], outcomes[i])
    &&& forall|i: int| 0 <= i < outcomes.len() - 1 ==> !(#[trigger] outcomes[i] is Success)
    &&& (outcomes.len() == stealers.len() || (outcomes.len() > 0 && outcomes.last() is Success))
}

/// `stolen` is a result that stealing from the other workers can give: the
/// combination ([`steal_collect_spec`]) of a [`steal_sequence`] over them.
pub open spec fn others_give<T>(stealers: Seq<Stealer<T>>, stolen: Stolen<T>) -> bool {
    exists|outcomes: Seq<Stolen<T>>| #[trigger] steal_sequence(stealers, outcomes) && stolen == steal_collect_spec(outcomes)
}

/// `stolen` is a result that one steal round can give: a batch steal from the
/// global queue, which is the result when it took a task; otherwise its
/// combination ([`steal_or_else_spec`]) with a steal from the other workers.
pub open spec fn round_gives<T>(local: &Worker<T>, global: &Injector<T>, stealers: Seq<Stealer<T>>, stolen: Stolen<T>) -> bool {
    exists|from_global: Stolen<T>| #[trigger] global_steal_gives(global, local, from_global) && if from_global is Success {
        stolen == from_global
    } else {
        exists|from_others: Stolen<T>| #[trigger] others_give(stealers, from_others) && stolen == steal_or_else_spec(from_global, from_others)
    }
}

/// Law: the other workers are tried from the first one on. Whatever a search
/// among them gives comes from steals made in order from `stealers[0]`: with at
/// least one stealer, the first outcome is a steal from `stealers[0]`, and a task
/// it gives is the result.
pub proof fn lemma_others_start_with_first<T>(stealers: Seq<Stealer<T>>, stolen: Stolen<T>)
    requires
        others_give(stealers, stolen),
        stealers.len() > 0,
    ensures
        exists|first: Stolen<T>| #[trigger] steal_gives(&stealers[0], first) && (first is Success ==> stolen == first),
{
    let outcomes = choose|outcomes: Seq<Stolen<T>>| #[trigger] steal_sequence(stealers, outcomes) && stolen == steal_collect_spec(outcomes);
    assert(outcomes.len() > 0);
    assert(steal_gives(&stealers[0], outcomes[0]));
}

/// A combination of steal outcomes takes a task only if one of them did.
pub proof fn lemma_collect_takes_only_given_tasks<T>(outcomes: Seq<Stolen<T>>)
    ensures
        steal_collect_spec(outcomes) is Success ==> exists|i: int| 0 <= i < outcomes.len() && outcomes[i] == steal_collect_spec(outcomes),
        (forall|i: int| 0 <= i < outcomes.len() ==> !(#[trigger] outcomes[i] is Success)) ==> !(steal_collect_spec(outcomes) is Success),
    decreases outcomes.len(),
{
    if outcomes.len() > 0 {
        let rest = outcomes.drop_first();
        lemma_collect_takes_only_given_tasks(rest);
        if steal_collect_spec(outcomes) is Success && !(outcomes[0] is Success) {
            let i = choose|i: int| 0 <= i < rest.len() && rest[i] == steal_collect_spec(rest);
            assert(outcomes[i + 1] == rest[i]);
        }
        if forall|i: int| 0 <= i < outcomes.len() ==> !(#[trigger] outcomes[i] is Success) {
            assert forall|i: int| 0 <= i < rest.len() implies !(#[trigger] rest[i] is Success) by {
                assert(rest[i] == outcomes[i + 1]);
            }
        }
    }
}

/// Law: a search among the other workers comes back without a task only after
/// a steal from every one of them, none of which gave a task.
pub proof fn lemma_others_empty_handed_tried_all<T>(stealers: Seq<Stealer<T>>, stolen: Stolen<T>)
    requires
        others_give(stealers, stolen),
        !(stolen is Success),
    ensures
        exists|outcomes: Seq<Stolen<T>>| {
            &&& outcomes.len() == stealers.len()
            &&& forall|i: int| 0 <= i < outcomes.len() ==> #[trigger] steal_gives(&stealers[i], outcomes[i])
            &&& forall|i: int| 0 <= i < outcomes.len() ==> !(#[trigger] outcomes[i] is Success)
        },
{
    let outcomes = choose|outcomes: Seq<Stolen<T>>| #[trigger] steal_sequence(stealers, outcomes) && stolen == steal_collect_spec(outcomes);
    lemma_collect_takes_only_given_tasks(outcomes);
    if outcomes.len() < stealers.len() {
        assert(outcomes.last() is Success);
        assert(outcomes[outcomes.len() - 1] is Success);
    }
    assert forall|i: int| 0 <= i < outcomes.len() implies !(#[trigger] outcomes[i] is Success) by {
        if i < outcomes.len() - 1 {
        } else {
            if outcomes[i] is Success {
                assert(steal_collect_spec(outcomes) is Success) by {
                    lemma_collect_success_at_end(outcomes);
                }
            }
        }
    }
}

/// When every outcome but the last gave no task and the last did, their
/// combination is that last outcome.
proof fn lemma_collect_success_at_end<T>(outcomes: Seq<Stolen<T>>)
    requires
        outcomes.len() > 0,
        outcomes.last() is Success,
        forall|i: int| 0 <= i < outcomes.len() - 1 ==> !(#[trigger] outcomes[i] is Success),
    ensures
        steal_collect_spec(outcomes) == outcomes.last(),
    decreases outcomes.len(),
{
    if outcomes.len() > 1 {
        let rest = outcomes.drop_first();
        assert forall|i: int| 0 <= i < rest.len() - 1 implies !(#[trigger] rest[i] is Success) by {
            assert(rest[i] == outcomes[i + 1]);
        }
        assert(rest.last() == outcomes.last());
        lemma_collect_success_at_end(rest);
    }
}

/// Law: a steal round comes back without a task only when the global queue gave
/// no task and then the search among the other workers gave none either.
pub proof fn lemma_round_empty_handed<T>(local: &Worker<T>, global: &Injector<T>, stealers: Seq<Stealer<T>>, stolen: Stolen<T>)
    requires
        round_gives(local, global, stealers, stolen),
        !(stolen is Success),
    ensures
        exists|from_global: Stolen<T>| #[trigger] global_steal_gives(global, local, from_global) && !(from_global is Success),
        exists|from_others: Stolen<T>| #[trigger] others_give(stealers, from_others) && !(from_others is Success),
{
    let g = choose|from_global: Stolen<T>| #[trigger] global_steal_gives(global, local, from_global) && if from_global is Success {
        stolen == from_global
    } else {
        exists|from_others: Stolen<T>| #[trigger] others_give(stealers, from_others) && stolen == steal_or_else_spec(from_global, from_others)
    };
    assert(!(g is Success));
    let o = choose|from_others: Stolen<T>| #[trigger] others_give(stealers, from_others) && stolen == steal_or_else_spec(g, from_others);
    assert(!(o is Success));
}

/// Tries to steal one task from the other workers, one after another, stopping
/// at the first task stolen; the outcomes are combined by [`combine_steals`].
/// With no other worker there is nothing to steal.
pub fn steal_from_others<T>(stealers: &[Stealer<T>]) -> (stolen: Stolen<T>)
    ensures
        stealers@.len() == 0 ==> stolen is Empty,
        others_give(stealers@, stolen),
{
    let mut outcomes: Vec<Stolen<T>> = Vec::new();
    let mut i: usize = 0;
    let mut stole = false;
    while i < stealers.len() && !stole
        invariant
            i <= stealers@.len(),
            outcomes@.len() == i,
            forall|j: int| 0 <= j < i ==> #[trigger] steal_gives(&stealers@[j], outcomes@[j]),
            forall|j: int| 0 <= j < i - 1 ==> !(#[trigger] outcomes@[j] is Success),
            stole == (i > 0 && outcomes@[i - 1] is Success),
        decreases stealers@.len() - i,
    {
        let outcome = stealer_steal(&stealers[i]);
        assert(steal_gives(&stealers@[i as int], outcome));
        stole = ends_search(&outcome);
        outcomes.push(outcome);
        i = i + 1;
    }
    assert(steal_sequence(stealers@, outcomes@));
    combine_steals(outcomes)
}

/// Whether an outcome ends the search among the other workers: it does once a
/// task has been taken, so that no further task is taken from them.
pub fn ends_search<T>(outcome: &Stolen<T>) -> (stop: bool)
    ensures
        stop == (*outcome is Success),
{
    match outcome {
        Stolen::Success(_) => true,
        _ => false,
    }
}

/// Whether the other workers are to be tried after the global queue: only when
/// the global queue gave no task.
pub fn needs_other_workers<T>(from_global: &Stolen<T>) -> (needed: bool)
    ensures
        needed == !(*from_global is Success),
{
    match from_global {
        Stolen::Success(_) => false,
        _ => true,
    }
}

/// One round of a worker's search for a task once its own queue is empty: take
/// a batch from the global queue, or else, only when that gave no task (see
/// [`needs_other_workers`]), a task from another worker. A "retry" outcome asks
/// for another round.
pub fn steal_round<T>(local: &Worker<T>, global: &Injector<T>, stealers: &[Stealer<T>]) -> (stolen: Stolen<T>)
    ensures
        round_gives(local, global, stealers@, stolen),
{
    let from_global = injector_steal_batch_and_pop(global, local);
    let ghost g = from_global;
    assert(global_steal_gives(global, local, g));
    if needs_other_workers(&from_global) {
        let from_others = steal_from_others(stealers);
        let stolen = combine_rounds(from_global, from_others);
        assert(others_give(stealers@, from_others));
        stolen
    } else {
        from_global
    }
}

/// Calls `crossbeam_deque::Worker::pop` on the worker's own queue. Other threads
/// may steal from that queue at any instant, so nothing is claimed of the result.
#[verifier::external_body]
fn worker_pop<T>(local: &Worker<T>) -> Option<T> {
    local.pop()
}

/// The first round of a worker's search for a task: its own queue first, and
/// only when that is empty a [`steal_round`]. Later rounds, after a "retry", are
/// steal rounds alone.
pub fn first_search_round<T>(local: &Worker<T>, global: &Injector<T>, stealers: &[Stealer<T>]) -> (found: Stolen<T>)
    ensures
        exists|popped: Option<T>| #[trigger] pop_gives(local, popped) && match popped {
            Some(task) => found == Stolen::Success(task),
            None => round_gives(local, global, stealers@, found),
        },
{
    let popped = worker_pop(local);
    let ghost p = popped;
    assert(pop_gives(local, p));
    match popped {
        Some(task) => Stolen::Success(task),
        None => steal_round(local, global, stealers),
    }
}

} // verus!
