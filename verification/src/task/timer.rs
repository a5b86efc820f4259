//! Interval streams: the deadlines of an interval and what it does each time its
//! delay is polled.
//!
//! An interval ticks on a fixed grid: its ticks are due at one period, two
//! periods, ... after it was created. A tick noticed late does not move the grid;
//! the next tick is due at the first grid point after the moment it was noticed,
//! so time spent between polls never accumulates as drift. Times are counted in
//! nanoseconds.

use vstd::prelude::*;
use crate::task::Poll;

verus! {

/// The deadline of the tick after the one due at `deadline`, noticed at `now`:
/// the first point `deadline + k * period` (with `k >= 1`) that lies after
/// `now`. With a zero period every poll ticks, so the next deadline is `now`.
pub open spec fn next_deadline_spec(deadline: int, period: int, now: int) -> int {
    if period <= 0 {
        now
    } else if now < deadline {
        deadline + period
    } else {
        deadline + ((now - deadline) / period + 1) * period
    }
}

/// The later of two instants.
pub open spec fn later(a: int, b: int) -> int {
    if a < b { b } else { a }
}

/// Computes the deadline of the next tick of an interval whose last tick was due
/// at `deadline` and was noticed at `now`. The result is the first point of the
/// interval's grid (`deadline` plus a positive multiple of `period`) that lies
/// after `now`; a zero period gives `now`.
pub fn next_deadline(deadline: u64, period: u64, now: u64) -> (next: u64)
    requires
        later(deadline as int, now as int) + period <= u64::MAX,
    ensures
        next == next_deadline_spec(deadline as int, period as int, now as int),
        period == 0 ==> next == now,
        period > 0 ==> {
            &&& next > now
            &&& next > deadline
            &&& (next - deadline) % (period as int) == 0
            &&& next - period <= later(deadline as int, now as int)
        },
{
    if period == 0 {
        now
    } else if now < deadline {
        deadline + period
    } else {
        let elapsed: u64 = now - deadline;
        let periods: u64 = elapsed / period;
        let rest: u64 = elapsed % period;
        proof {
            assert(elapsed == periods * period + rest && rest < period) by (nonlinear_arith)
                requires
                    period > 0,
                    periods == elapsed / period,
                    rest == elapsed % period,
            ;
            assert((periods + 1) * period == periods * period + period) by (nonlinear_arith);
            assert(((periods + 1) * period) % (period as int) == 0) by (nonlinear_arith)
                requires
                    period > 0,
            ;
        }
        let step: u64 = now - rest;
        assert(step == deadline + periods * period);
        assert(step + period == deadline + (periods + 1) * period);
        assert(periods as int == (now as int - deadline as int) / (period as int));
        assert(step + period == next_deadline_spec(deadline as int, period as int, now as int));
        step + period
    }
}

/// Law: an interval does not drift. When a deadline lies on the grid of period
/// multiples counted from `start`, so does the next deadline, whenever the tick
/// is noticed.
pub proof fn lemma_deadlines_stay_on_grid(start: int, period: int, deadline: int, now: int)
    requires
        period > 0,
        deadline >= start,
        (deadline - start) % period == 0,
    ensures
        next_deadline_spec(deadline, period, now) > deadline,
        (next_deadline_spec(deadline, period, now) - start) % period == 0,
{
    let next = next_deadline_spec(deadline, period, now);
    let k: int = if now < deadline { 1 } else { (now - deadline) / period + 1 };
    assert(k >= 1) by (nonlinear_arith)
        requires
            period > 0,
            now >= deadline ==> k == (now - deadline) / period + 1,
            now < deadline ==> k == 1,
    ;
    assert(next == deadline + k * period);
    assert(next > deadline) by (nonlinear_arith)
        requires
            period > 0,
            k >= 1,
            next == deadline + k * period,
    ;
    let j: int = (deadline - start) / period;
    assert(deadline - start == j * period) by (nonlinear_arith)
        requires
            period > 0,
            (deadline - start) % period == 0,
            j == (deadline - start) / period,
    ;
    assert(j * period + k * period == (j + k) * period) by (nonlinear_arith);
    assert((next - start) % period == 0) by (nonlinear_arith)
        requires
            period > 0,
            next - start == (j + k) * period,
    ;
}

/// The outcome of polling an interval stream once.
pub struct IntervalTick {
    /// The deadline of the interval's next tick.
    pub next_deadline: u64,
    /// When the delay has to be armed again: how long to wait from now.
    pub rearm: Option<u64>,
    /// What the stream yields.
    pub item: Poll<Option<()>>,
}

/// Polls an interval stream given the poll of its current delay, the deadline
/// that delay stands for, the period and the current time. When the delay has
/// elapsed, the stream yields one item and its delay is armed again to expire at
/// the next deadline on the grid ([`next_deadline`]); otherwise the stream is
/// pending and nothing changes. The stream never ends.
pub fn interval_tick(delay: Poll<()>, deadline: u64, period: u64, now: u64) -> (tick: IntervalTick)
    requires
        later(deadline as int, now as int) + period <= u64::MAX,
    ensures
        delay is Ready ==> {
            &&& tick.next_deadline == next_deadline_spec(deadline as int, period as int, now as int)
            &&& tick.rearm == Some((tick.next_deadline - now) as u64)
            &&& tick.item == Poll::Ready(Some(()))
        },
        delay is Pending ==> {
            &&& tick.next_deadline == deadline
            &&& tick.rearm is None
            &&& tick.item is Pending
        },
{
    match delay {
        Poll::Ready(()) => {
            let next = next_deadline(deadline, period, now);
            IntervalTick { next_deadline: next, rearm: Some(next - now), item: Poll::Ready(Some(())) }
        },
        Poll::Pending => IntervalTick { next_deadline: deadline, rearm: None, item: Poll::Pending },
    }
}

} // verus!
