//! Frame timing: the measured figures and the recent frame times from which
//! the frame rate is worked out.
use vstd::prelude::*;

use std::collections::VecDeque;

verus! {

pub struct FpsInfo {
    pub measured_fps: u32,
    pub emulation_time: u32,
    pub last_ui_time: u32,
    pub last_idle_time: u32,
    pub last_cycles_ran_arm9: u64,
    pub target_cycles_arm9: u64,
    pub cycles_ran_arm9: u64,
    pub cycles_ran_arm7: u64,
    pub cycles_ran_gpu: u64,
}

/// How long (in microseconds) frame times are kept.
pub const WINDOW_MICROS: u64 = 500_000;

/// The recent frame times, in microseconds since some fixed instant.
pub struct FpsCounter {
    pub last_frame_times: VecDeque<u64>,
}

impl Default for FpsCounter {
    fn default() -> (r: Self)
        ensures
            r.last_frame_times@ == Seq::<u64>::empty(),
    {
        FpsCounter { last_frame_times: VecDeque::new() }
    }
}

/// The frame-rate window: whether it shows, and the frame times it counts.
pub struct FpsInfoWindow {
    pub show: bool,
    pub fps_counter: FpsCounter,
}

impl Default for FpsInfoWindow {
    fn default() -> (r: Self)
        ensures
            !r.show,
            r.fps_counter.last_frame_times@ == Seq::<u64>::empty(),
    {
        FpsInfoWindow { show: false, fps_counter: FpsCounter::default() }
    }
}

/// The time from `a` to `b`, or zero when `b` is earlier.
pub open spec fn elapsed(a: u64, b: u64) -> int {
    if b >= a {
        b - a
    } else {
        0
    }
}

/// The sum of the times between consecutive entries.
pub open spec fn span(times: Seq<u64>) -> int
    decreases times.len(),
{
    if times.len() <= 1 {
        0
    } else {
        span(times.drop_last()) + elapsed(times[times.len() - 2], times.last())
    }
}

/// `new_times` is `old_times` less its first `k` entries, with `now` added:
/// each dropped entry had a successor more than the window before `now`, and
/// the first entry kept is the last one or has a successor within the window.
pub open spec fn pruned_at(old_times: Seq<u64>, new_times: Seq<u64>, now: u64, k: int) -> bool {
    &&& 0 <= k <= old_times.len()
    &&& (old_times.len() > 0 ==> k < old_times.len())
    &&& new_times == old_times.subrange(k, old_times.len() as int).push(now)
    &&& forall|j: int| 1 <= j <= k ==> #[trigger] elapsed(old_times[j], now) > WINDOW_MICROS
    &&& k + 1 < old_times.len() ==> elapsed(old_times[k + 1], now) <= WINDOW_MICROS
}

impl FpsCounter {
    /// Records a frame at `now`: first the oldest times are dropped for as
    /// long as the second-oldest is more than half a second before `now`
    /// (the last one is always kept), then `now` is added.
    pub fn push_current_time(&mut self, now: u64)
        ensures
            exists|k: int| pruned_at(old(self).last_frame_times@, final(self).last_frame_times@, now, k),
    {
        let ghost old_times = self.last_frame_times@;
        let ghost mut k: int = 0;
        loop
            invariant
                0 <= k <= old_times.len(),
                old_times.len() > 0 ==> k < old_times.len(),
                self.last_frame_times@ == old_times.subrange(k, old_times.len() as int),
                forall|j: int| 1 <= j <= k ==> #[trigger] elapsed(old_times[j], now) > WINDOW_MICROS,
            ensures
                0 <= k <= old_times.len(),
                old_times.len() > 0 ==> k < old_times.len(),
                self.last_frame_times@ == old_times.subrange(k, old_times.len() as int),
                forall|j: int| 1 <= j <= k ==> #[trigger] elapsed(old_times[j], now) > WINDOW_MICROS,
                k + 1 < old_times.len() ==> elapsed(old_times[k + 1], now) <= WINDOW_MICROS,
            decreases self.last_frame_times@.len(),
        {
            if self.last_frame_times.len() <= 1 {
                break;
            }
            let second_last_time = self.last_frame_times[1];
            assert(second_last_time == old_times[k + 1]);
            if now.saturating_sub(second_last_time) > WINDOW_MICROS {
                self.last_frame_times.pop_front();
                proof {
                    k = k + 1;
                    assert(self.last_frame_times@ =~= old_times.subrange(k, old_times.len() as int));
                }
            } else {
                break;
            }
        }
        self.last_frame_times.push_back(now);
        assert(pruned_at(old_times, self.last_frame_times@, now, k));
    }

    /// The sum of the times between consecutive frames, and the number of
    /// such intervals; their ratio is the average frame time.
    pub fn frame_span(&self) -> (r: (u128, usize))
        ensures
            r.0 as int == span(self.last_frame_times@),
            r.1 as int == if self.last_frame_times@.len() == 0 {
                0
            } else {
                self.last_frame_times@.len() - 1
            },
    {
        let n = self.last_frame_times.len();
        let mut total: u128 = 0;
        let mut i: usize = 1;
        if n == 0 {
            return (0, 0);
        }
        while i < n
            invariant
                1 <= i <= n,
                n == self.last_frame_times@.len(),
                total as int == span(self.last_frame_times@.subrange(0, i as int)),
                total <= i * 0x1_0000_0000_0000_0000,
            decreases n - i,
        {
            let a = self.last_frame_times[i - 1];
            let b = self.last_frame_times[i];
            proof {
                let s = self.last_frame_times@.subrange(0, i + 1);
                assert(s.drop_last() =~= self.last_frame_times@.subrange(0, i as int));
            }
            total = total + b.saturating_sub(a) as u128;
            i = i + 1;
        }
        assert(self.last_frame_times@.subrange(0, n as int) =~= self.last_frame_times@);
        (total, n - 1)
    }
}

} // verus!
