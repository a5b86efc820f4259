use tio::task::block::RunningGuard;
use tio::task::blocking::BlockingPool;
use crossbeam_deque::{Injector, Stealer, Worker};
use tio::task::spawn::{combine_rounds, combine_steals, ends_search, first_search_round, needs_other_workers, steal_from_others, steal_round, IdleWorkers, Stolen};
use tio::task::timer::{interval_tick, next_deadline};
use tio::task::yield_now::YieldNow;
use tio::task::Poll;

#[test]
fn running_guard_sets_and_clears_the_flag() {
    let mut running = false;
    let guard = RunningGuard::new(&mut running);
    assert!(running);
    guard.release(&mut running);
    assert!(!running);
    let again = RunningGuard::new(&mut running);
    assert!(running);
    again.release(&mut running);
}

#[test]
fn yield_now_is_pending_once() {
    let mut fut = YieldNow::new();
    assert!(matches!(fut.poll(), Poll::Pending));
    assert!(matches!(fut.poll(), Poll::Ready(())));
    assert!(matches!(fut.poll(), Poll::Ready(())));
}

#[test]
fn blocking_pool_first_thread() {
    let mut pool = BlockingPool::new();
    assert_eq!(pool.free_threads(), 0);
    assert_eq!(pool.starting_threads(), 1);
    pool.thread_started();
    assert_eq!(pool.free_threads(), 1);
    assert_eq!(pool.starting_threads(), 0);
}

#[test]
fn blocking_pool_last_free_thread_never_leaves_on_timeout() {
    let mut pool = BlockingPool::new();
    pool.thread_started();
    assert!(!pool.on_timeout());
    assert_eq!(pool.free_threads(), 1);
}

#[test]
fn blocking_pool_extra_thread_leaves_on_timeout() {
    let mut pool = BlockingPool::new();
    pool.thread_started();
    // the only free thread takes work and asks for another thread
    assert!(pool.on_task());
    // it finishes before the new thread starts: nobody is free, so it waits again
    assert!(!pool.on_batch_done());
    pool.thread_started();
    assert_eq!(pool.free_threads(), 2);
    assert!(pool.on_timeout());
    assert_eq!(pool.free_threads(), 1);
    assert!(!pool.on_timeout());
    assert_eq!(pool.free_threads(), 1);
}

#[test]
fn blocking_pool_busy_last_thread_asks_for_another() {
    let mut pool = BlockingPool::new();
    pool.thread_started();
    assert!(pool.on_task());
    assert_eq!(pool.free_threads(), 0);
    assert_eq!(pool.starting_threads(), 1);
    pool.thread_started();
    // the new thread is the only free one: taking work asks for yet another
    assert!(pool.on_task());
    assert_eq!(pool.starting_threads(), 1);
    pool.thread_started();
    // a thread finishing while another is free leaves the pool
    assert!(pool.on_batch_done());
    assert_eq!(pool.free_threads(), 1);
}

#[test]
fn idle_workers_wake_in_parking_order() {
    let mut idle = IdleWorkers::new(3);
    assert_eq!(idle.wake_one(), None);
    assert!(idle.park(2));
    assert!(idle.park(0));
    assert_eq!(idle.wake_one(), Some(2));
    assert!(idle.park(1));
    assert_eq!(idle.wake_one(), Some(0));
    assert_eq!(idle.wake_one(), Some(1));
    assert_eq!(idle.wake_one(), None);
}

#[test]
fn idle_workers_refuse_more_sleepers_than_threads() {
    let mut idle = IdleWorkers::new(2);
    assert!(idle.park(0));
    assert!(idle.park(1));
    assert!(!idle.park(1));
    assert_eq!(idle.wake_one(), Some(0));
    assert_eq!(idle.wake_one(), Some(1));
    assert_eq!(idle.wake_one(), None);
}

#[test]
fn interval_yields_and_rearms_when_delay_elapsed() {
    let tick = interval_tick(Poll::Ready(()), 1_000, 1_000, 1_200);
    assert_eq!(tick.next_deadline, 2_000);
    assert_eq!(tick.rearm, Some(800));
    assert!(matches!(tick.item, Poll::Ready(Some(()))));
}

#[test]
fn interval_waits_while_delay_pending() {
    let tick = interval_tick(Poll::Pending, 1_000, 1_000, 900);
    assert_eq!(tick.next_deadline, 1_000);
    assert_eq!(tick.rearm, None);
    assert!(matches!(tick.item, Poll::Pending));
}

#[test]
fn next_deadline_stays_on_the_grid() {
    // noticed on time
    assert_eq!(next_deadline(1_000, 1_000, 1_000), 2_000);
    // noticed late: the grid is kept, not restarted from the moment noticed
    assert_eq!(next_deadline(1_000, 1_000, 1_250), 2_000);
    // several periods late: the first grid point after now
    assert_eq!(next_deadline(1_000, 1_000, 3_500), 4_000);
    assert_eq!(next_deadline(1_000, 1_000, 4_000), 5_000);
    // noticed early (a coarse clock)
    assert_eq!(next_deadline(1_000, 1_000, 990), 2_000);
}

#[test]
fn next_deadline_with_zero_period_is_now() {
    assert_eq!(next_deadline(1_000, 0, 1_234), 1_234);
}

#[test]
fn combine_rounds_prefers_a_task_then_retry() {
    assert!(matches!(combine_rounds(Stolen::Success(1), Stolen::Success(2)), Stolen::Success(1)));
    assert!(matches!(combine_rounds(Stolen::Retry, Stolen::Success(2)), Stolen::Success(2)));
    assert!(matches!(combine_rounds(Stolen::Empty, Stolen::Success(2)), Stolen::Success(2)));
    assert!(matches!(combine_rounds::<u8>(Stolen::Retry, Stolen::Empty), Stolen::Retry));
    assert!(matches!(combine_rounds::<u8>(Stolen::Empty, Stolen::Retry), Stolen::Retry));
    assert!(matches!(combine_rounds::<u8>(Stolen::Empty, Stolen::Empty), Stolen::Empty));
}

#[test]
fn combine_steals_takes_first_task_else_retry() {
    assert!(matches!(combine_steals(vec![Stolen::Empty, Stolen::Retry, Stolen::Success(5), Stolen::Success(6)]), Stolen::Success(5)));
    assert!(matches!(combine_steals::<u8>(vec![Stolen::Empty, Stolen::Retry, Stolen::Empty]), Stolen::Retry));
    assert!(matches!(combine_steals::<u8>(vec![Stolen::Empty, Stolen::Empty]), Stolen::Empty));
    assert!(matches!(combine_steals::<u8>(Vec::new()), Stolen::Empty));
}

#[test]
fn steal_round_takes_from_global_queue_first() {
    let local: Worker<u32> = Worker::new_fifo();
    let other: Worker<u32> = Worker::new_fifo();
    other.push(9);
    let global = Injector::new();
    global.push(1);
    global.push(2);
    let stealers = vec![other.stealer()];
    assert!(matches!(steal_round(&local, &global, &stealers), Stolen::Success(1)));
    assert!(matches!(steal_round(&local, &global, &stealers), Stolen::Success(2)));
    // the other worker was left alone while the global queue had tasks
    assert_eq!(other.pop(), Some(9));
}

#[test]
fn steal_round_falls_back_to_other_workers() {
    let local: Worker<u32> = Worker::new_fifo();
    let empty: Worker<u32> = Worker::new_fifo();
    let other: Worker<u32> = Worker::new_fifo();
    other.push(7);
    other.push(8);
    let global = Injector::new();
    let stealers = vec![empty.stealer(), other.stealer()];
    assert!(matches!(steal_round(&local, &global, &stealers), Stolen::Success(7)));
    assert!(matches!(steal_round(&local, &global, &stealers), Stolen::Success(8)));
    assert!(matches!(steal_round(&local, &global, &stealers), Stolen::Empty));
}

#[test]
fn steal_from_no_other_worker_is_empty() {
    let stealers: Vec<Stealer<u32>> = Vec::new();
    assert!(matches!(steal_from_others(&stealers), Stolen::Empty));
}

#[test]
fn interval_five_ticks_take_at_least_five_gaps() {
    // replays an interval of one second: each tick is noticed a little late,
    // and the fifth is not noticed before five gaps have passed
    let gap: u64 = 1_000_000_000;
    let mut deadline = gap;
    let mut counter = 0;
    let mut now = 0;
    while counter < 5 {
        now = deadline + 3_000_000;
        let tick = interval_tick(Poll::Ready(()), deadline, gap, now);
        assert!(matches!(tick.item, Poll::Ready(Some(()))));
        assert_eq!(tick.rearm, Some(tick.next_deadline - now));
        deadline = tick.next_deadline;
        counter += 1;
    }
    assert_eq!(counter, 5);
    assert!(now >= 5 * gap);
    // lateness did not accumulate: the deadlines stayed on the grid
    assert_eq!(deadline, 6 * gap);
}

#[test]
fn registration_tokens_are_fresh() {
    let mut registry = tio::net::reactor::Registry::new();
    let a = tio::net::reactor::Registration::new(&mut registry);
    let b = tio::net::reactor::Registration::new(&mut registry);
    assert_ne!(a.token(), b.token());
    assert!(registry.contains(a.token()));
    assert!(registry.contains(b.token()));
    assert!(registry.dispatch(a.token(), true, true).is_empty());
}

#[test]
fn search_takes_own_queue_first() {
    let local: Worker<u32> = Worker::new_fifo();
    local.push(4);
    let global = Injector::new();
    global.push(1);
    let stealers: Vec<Stealer<u32>> = Vec::new();
    assert!(matches!(first_search_round(&local, &global, &stealers), Stolen::Success(4)));
    assert!(matches!(first_search_round(&local, &global, &stealers), Stolen::Success(1)));
    assert!(matches!(first_search_round(&local, &global, &stealers), Stolen::Empty));
}

#[test]
fn search_decisions() {
    assert!(ends_search(&Stolen::Success(1)));
    assert!(!ends_search::<u8>(&Stolen::Retry));
    assert!(!ends_search::<u8>(&Stolen::Empty));
    assert!(!needs_other_workers(&Stolen::Success(1)));
    assert!(needs_other_workers::<u8>(&Stolen::Retry));
    assert!(needs_other_workers::<u8>(&Stolen::Empty));
}
