//! The step scheduler: converts wall-clock elapsed time plus a target
//! steps-per-second rate into a bounded number of discrete generations per
//! frame. Time is carried in whole microseconds.

use vstd::prelude::*;

verus! {

use vstd::arithmetic::div_mod::{
    lemma_fundamental_div_mod,
    lemma_hoist_over_denominator,
    lemma_mod_multiples_vanish,
    lemma_div_is_ordered,
    lemma_mod_bound,
};

/// The slowest selectable rate, in steps per second.
pub const MIN_STEPS_PER_SECOND: u32 = 1;

/// The fastest selectable rate, in steps per second.
pub const MAX_STEPS_PER_SECOND: u32 = 100_000;

/// Hard cap on the steps one tick may emit: bounds worst-case catch-up after
/// a stall, so a single large time jump never blocks the frame loop.
pub const MAX_STEPS_PER_TICK: u32 = 100;

/// Microseconds per second: the resolution time is carried at.
pub const MICROS_PER_SECOND: u64 = 1_000_000;

/// Steps emitted by one tick: the whole intervals in the accumulated time,
/// clamped to the hard cap.
pub open spec fn tick_steps(acc: int, elapsed: int, interval: int) -> int {
    if (acc + elapsed) / interval > MAX_STEPS_PER_TICK as int {
        MAX_STEPS_PER_TICK as int
    } else {
        (acc + elapsed) / interval
    }
}

/// Accumulated time left after one tick: the remainder, except that when the
/// cap clamps, the backlog is discarded rather than carried forward.
pub open spec fn tick_rest(acc: int, elapsed: int, interval: int) -> int {
    if (acc + elapsed) / interval > MAX_STEPS_PER_TICK as int {
        0
    } else {
        (acc + elapsed) % interval
    }
}

/// Converts elapsed wall-clock time into discrete generation counts at a
/// selectable target rate.
pub struct StepScheduler {
    /// Time not yet spent on a whole step; after every tick this is less
    /// than one step interval.
    pub accumulated_micros: u64,
    /// The target rate, between `MIN_STEPS_PER_SECOND` and
    /// `MAX_STEPS_PER_SECOND`.
    pub steps_per_second: u32,
}

impl StepScheduler {
    /// The rate is within the selectable range.
    pub open spec fn wf(self) -> bool {
        MIN_STEPS_PER_SECOND <= self.steps_per_second <= MAX_STEPS_PER_SECOND
    }

    /// One step interval, in whole microseconds.
    pub open spec fn interval_micros(self) -> int {
        MICROS_PER_SECOND as int / self.steps_per_second as int
    }

    /// A scheduler at the given rate with no accumulated time.
    pub fn new(steps_per_second: u32) -> (r: Self)
        requires
            MIN_STEPS_PER_SECOND <= steps_per_second <= MAX_STEPS_PER_SECOND,
        ensures
            r.wf(),
            r.steps_per_second == steps_per_second,
            r.accumulated_micros == 0,
    {
        StepScheduler { accumulated_micros: 0, steps_per_second }
    }

    /// Change the target rate; accumulated time is kept.
    pub fn set_rate(&mut self, steps_per_second: u32)
        requires
            MIN_STEPS_PER_SECOND <= steps_per_second <= MAX_STEPS_PER_SECOND,
        ensures
            final(self).wf(),
            final(self).steps_per_second == steps_per_second,
            final(self).accumulated_micros == old(self).accumulated_micros,
    {
        self.steps_per_second = steps_per_second;
    }

    /// Absorb elapsed time and emit the number of whole steps now due, at
    /// most `MAX_STEPS_PER_TICK`; when the cap clamps, the remaining backlog
    /// is discarded. After the tick less than one interval remains
    /// accumulated.
    pub fn tick(&mut self, elapsed_micros: u64) -> (steps: u32)
        requires
            old(self).wf(),
            old(self).accumulated_micros + elapsed_micros <= u64::MAX,
        ensures
            final(self).wf(),
            final(self).steps_per_second == old(self).steps_per_second,
            steps == tick_steps(
                old(self).accumulated_micros as int,
                elapsed_micros as int,
                old(self).interval_micros(),
            ),
            final(self).accumulated_micros == tick_rest(
                old(self).accumulated_micros as int,
                elapsed_micros as int,
                old(self).interval_micros(),
            ),
            steps <= MAX_STEPS_PER_TICK,
            final(self).accumulated_micros < old(self).interval_micros(),
    {
        proof {
            assert(MICROS_PER_SECOND as int / MAX_STEPS_PER_SECOND as int == 10);
            lemma_div_is_ordered(
                self.steps_per_second as int,
                MAX_STEPS_PER_SECOND as int,
                1,
            );
            assert(MICROS_PER_SECOND as int / self.steps_per_second as int
                >= MICROS_PER_SECOND as int / MAX_STEPS_PER_SECOND as int) by {
                vstd::arithmetic::div_mod::lemma_div_is_ordered_by_denominator(
                    MICROS_PER_SECOND as int,
                    self.steps_per_second as int,
                    MAX_STEPS_PER_SECOND as int,
                );
            }
        }
        let interval = MICROS_PER_SECOND / (self.steps_per_second as u64);
        let total = self.accumulated_micros + elapsed_micros;
        let steps = total / interval;
        if steps > MAX_STEPS_PER_TICK as u64 {
            self.accumulated_micros = 0;
            MAX_STEPS_PER_TICK
        } else {
            self.accumulated_micros = total % interval;
            proof {
                lemma_mod_bound(total as int, interval as int);
            }
            steps as u32
        }
    }
}

/// Ticking in fine or coarse granularity makes no difference: feeding
/// elapsed time in two pieces emits, across the two ticks together, exactly
/// the steps and the residue that feeding it at once would, whenever the
/// step cap clamps neither way of feeding it.
pub proof fn lemma_tick_granularity(acc: int, e1: int, e2: int, interval: int)
    requires
        interval >= 1,
        acc >= 0,
        e1 >= 0,
        e2 >= 0,
        (acc + e1) / interval <= MAX_STEPS_PER_TICK as int,
        (acc + e1 + e2) / interval <= MAX_STEPS_PER_TICK as int,
    ensures
        tick_steps(acc, e1, interval) + tick_steps(tick_rest(acc, e1, interval), e2, interval)
            == tick_steps(acc, e1 + e2, interval),
        tick_rest(tick_rest(acc, e1, interval), e2, interval) == tick_rest(
            acc,
            e1 + e2,
            interval,
        ),
{
    let a = acc + e1;
    let q = a / interval;
    let r = a % interval;
    lemma_fundamental_div_mod(a, interval);
    lemma_mod_bound(a, interval);
    // a + e2 == (r + e2) + q * interval
    lemma_hoist_over_denominator(r + e2, q, interval as nat);
    assert((a + e2) / interval == (r + e2) / interval + q);
    lemma_mod_multiples_vanish(q, r + e2, interval);
    assert((q * interval + (r + e2)) % interval == (r + e2) % interval);
    assert((a + e2) % interval == (r + e2) % interval);
    lemma_div_is_ordered(r + e2, a + e2, interval);
    assert((r + e2) / interval <= MAX_STEPS_PER_TICK as int);
    vstd::arithmetic::div_mod::lemma_div_pos_is_pos(r + e2, interval);
    vstd::arithmetic::div_mod::lemma_div_pos_is_pos(a, interval);
}

} // verus!
