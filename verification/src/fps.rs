//! Frame-rate tracking: a circular buffer of recent frame times whose
//! average yields the displayed frames-per-second figure.

use vstd::prelude::*;

verus! {

/// How many recent frames the average covers (one second at 60 fps).
pub const FRAME_WINDOW: usize = 60;

/// Largest frame time one sample may record, in microseconds.
pub const FRAME_TIME_LIMIT_MICROS: u64 = 1_000_000_000;

/// The total of all recorded frame times (empty slots hold zero and
/// contribute nothing).
pub open spec fn total_time(s: Seq<u64>) -> int
    decreases s.len(),
{
    if s.len() == 0 {
        0
    } else {
        total_time(s.drop_last()) + s.last()
    }
}

/// How many slots hold a (non-zero) frame time.
pub open spec fn frames_recorded(s: Seq<u64>) -> int
    decreases s.len(),
{
    if s.len() == 0 {
        0
    } else {
        frames_recorded(s.drop_last()) + if s.last() > 0 {
            1int
        } else {
            0int
        }
    }
}

/// The frame rate, in thousandths of a frame per second, that a window of
/// samples averages to; `prev` is kept when nothing is recorded yet.
pub open spec fn fps_milli_of(s: Seq<u64>, prev: u64) -> int {
    if frames_recorded(s) > 0 && total_time(s) > 0 {
        frames_recorded(s) * 1_000_000_000 / total_time(s)
    } else {
        prev as int
    }
}

/// Every recorded sample is non-negative and the total is bounded by the
/// per-sample limit times the window length.
proof fn lemma_total_time_bounds(s: Seq<u64>)
    requires
        forall|i: int| 0 <= i < s.len() ==> #[trigger] s[i] <= FRAME_TIME_LIMIT_MICROS,
    ensures
        0 <= total_time(s) <= s.len() * FRAME_TIME_LIMIT_MICROS,
        0 <= frames_recorded(s) <= s.len(),
    decreases s.len(),
{
    if s.len() > 0 {
        lemma_total_time_bounds(s.drop_last());
    }
}

/// Tracks the average frame time over a sliding window of recent frames.
pub struct FpsCounter {
    /// Circular buffer of recent frame times, in microseconds.
    pub frame_times_micros: Vec<u64>,
    /// Current position in the circular buffer.
    pub frame_time_index: usize,
    /// The calculated frame rate, in thousandths of a frame per second.
    pub fps_milli: u64,
}

impl FpsCounter {
    /// The buffer has its fixed length, the cursor is inside it, and every
    /// sample respects the per-sample limit.
    pub open spec fn wf(self) -> bool {
        &&& self.frame_times_micros@.len() == FRAME_WINDOW
        &&& self.frame_time_index < FRAME_WINDOW
        &&& forall|i: int|
            0 <= i < self.frame_times_micros@.len() ==> #[trigger] self.frame_times_micros@[i]
                <= FRAME_TIME_LIMIT_MICROS
    }

    /// A counter with an empty window.
    pub fn new() -> (r: Self)
        ensures
            r.wf(),
            r.frame_times_micros@ == Seq::new(FRAME_WINDOW as nat, |i: int| 0u64),
            r.frame_time_index == 0,
            r.fps_milli == 0,
    {
        let mut frame_times_micros: Vec<u64> = Vec::new();
        let mut k: usize = 0;
        while k < FRAME_WINDOW
            invariant
                k <= FRAME_WINDOW,
                frame_times_micros@ =~= Seq::new(k as nat, |i: int| 0u64),
            decreases FRAME_WINDOW - k,
        {
            frame_times_micros.push(0);
            k = k + 1;
        }
        proof {
            assert(frame_times_micros@ =~= Seq::new(FRAME_WINDOW as nat, |i: int| 0u64));
        }
        FpsCounter { frame_times_micros, frame_time_index: 0, fps_milli: 0 }
    }

    /// Record one frame time and refresh the average: the sample replaces
    /// the oldest slot, and the rate becomes the recorded frame count over
    /// the recorded total time; with nothing recorded the rate is kept.
    pub fn record_frame(&mut self, frame_time_micros: u64)
        requires
            old(self).wf(),
            frame_time_micros <= FRAME_TIME_LIMIT_MICROS,
        ensures
            final(self).wf(),
            final(self).frame_times_micros@ == old(self).frame_times_micros@.update(
                old(self).frame_time_index as int,
                frame_time_micros,
            ),
            final(self).frame_time_index == (old(self).frame_time_index + 1) % (
            FRAME_WINDOW as int),
            final(self).fps_milli == fps_milli_of(
                final(self).frame_times_micros@,
                old(self).fps_milli,
            ),
    {
        self.frame_times_micros.set(self.frame_time_index, frame_time_micros);
        self.frame_time_index = (self.frame_time_index + 1) % FRAME_WINDOW;
        let ghost s = self.frame_times_micros@;
        let mut total: u64 = 0;
        let mut count: u64 = 0;
        let mut k: usize = 0;
        while k < FRAME_WINDOW
            invariant
                k <= FRAME_WINDOW,
                self.frame_times_micros@ == s,
                s.len() == FRAME_WINDOW,
                forall|i: int| 0 <= i < s.len() ==> #[trigger] s[i] <= FRAME_TIME_LIMIT_MICROS,
                total == total_time(s.take(k as int)),
                count == frames_recorded(s.take(k as int)),
                count <= k,
            decreases FRAME_WINDOW - k,
        {
            proof {
                assert(s.take(k + 1).drop_last() =~= s.take(k as int));
                lemma_total_time_bounds(s.take(k as int));
            }
            let t = self.frame_times_micros[k];
            total = total + t;
            if t > 0 {
                count = count + 1;
            }
            k = k + 1;
        }
        proof {
            assert(s.take(FRAME_WINDOW as int) =~= s);
        }
        if count > 0 && total > 0 {
            self.fps_milli = count * 1_000_000_000 / total;
        }
    }
}

} // verus!
