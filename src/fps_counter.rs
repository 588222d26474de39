use vstd::prelude::*;
use std::collections::VecDeque;

verus! {

pub const NANOS_PER_SECOND: u64 = 1_000_000_000;

/// Frames per second for a mean frame time of `average` nanoseconds,
/// rounded to the nearest integer, half away from zero; the largest `u32`
/// when the mean is zero.
pub open spec fn fps_of(average: int) -> int {
    if average == 0 {
        u32::MAX as int
    } else {
        (2 * NANOS_PER_SECOND + average) / (2 * average)
    }
}

pub open spec fn sum(s: Seq<u64>) -> int
    decreases s.len(),
{
    if s.len() == 0 {
        0
    } else {
        sum(s.drop_last()) + s.last()
    }
}

proof fn lemma_sum_drop_first(s: Seq<u64>)
    requires
        s.len() > 0,
    ensures
        sum(s) == s[0] + sum(s.drop_first()),
    decreases s.len(),
{
    if s.len() > 1 {
        lemma_sum_drop_first(s.drop_last());
        assert(s.drop_last().drop_first() =~= s.drop_first().drop_last());
        assert(s.drop_first().last() == s.last());
    } else {
        assert(s.drop_last() =~= Seq::<u64>::empty());
        assert(s.drop_first() =~= Seq::<u64>::empty());
    }
}

proof fn lemma_sum_nonneg(s: Seq<u64>)
    ensures
        sum(s) >= 0,
    decreases s.len(),
{
    if s.len() > 0 {
        lemma_sum_nonneg(s.drop_last());
    }
}

/// The frame times of the last frames, at most `MAX_FRAME_TIMES` of them,
/// in nanoseconds of a monotonic clock.
pub struct FPSCounter {
    pub frame_times: VecDeque<u64>,
    pub total_frame_time: u64,
    pub last_frame_time: u64,
}

impl FPSCounter {
    pub const MAX_FRAME_TIMES: usize = 100;

    /// The total is the sum of the kept frame times, which cannot exceed the
    /// time of the last frame, and at most `MAX_FRAME_TIMES` are kept.
    pub open spec fn wf(&self) -> bool {
        &&& self.total_frame_time == sum(self.frame_times@)
        &&& self.total_frame_time <= self.last_frame_time
        &&& self.frame_times@.len() <= Self::MAX_FRAME_TIMES
    }

    pub open spec fn total(&self) -> int {
        self.total_frame_time as int
    }

    pub open spec fn last(&self) -> u64 {
        self.last_frame_time
    }

    /// A counter whose clock reads `now_nanos`.
    pub fn new(now_nanos: u64) -> (r: Self)
        ensures
            r.wf(),
            r.frame_times@.len() == 0,
            r.last() == now_nanos,
    {
        FPSCounter {
            frame_times: VecDeque::with_capacity(Self::MAX_FRAME_TIMES),
            total_frame_time: 0,
            last_frame_time: now_nanos,
        }
    }

    /// Records a frame that ended at `now_nanos`: its time is the time since
    /// the last frame; the oldest time is dropped once `MAX_FRAME_TIMES` are
    /// kept.
    pub fn frame(&mut self, now_nanos: u64)
        requires
            old(self).wf(),
            now_nanos >= old(self).last(),
        ensures
            final(self).wf(),
            final(self).last() == now_nanos,
            final(self).frame_times@ == (if old(self).frame_times@.len() >= Self::MAX_FRAME_TIMES {
                old(self).frame_times@.drop_first()
            } else {
                old(self).frame_times@
            }).push((now_nanos - old(self).last()) as u64),
            final(self).total() == sum(final(self).frame_times@),
    {
        let frame_time = now_nanos - self.last_frame_time;
        if self.frame_times.len() >= Self::MAX_FRAME_TIMES {
            let ghost before = self.frame_times@;
            match self.frame_times.pop_front() {
                Some(oldest) => {
                    proof {
                        lemma_sum_drop_first(before);
                        lemma_sum_nonneg(before.drop_first());
                    }
                    self.total_frame_time = self.total_frame_time - oldest;
                },
                None => {},
            }
        }
        proof {
            lemma_sum_nonneg(self.frame_times@);
        }
        let ghost kept = self.frame_times@;
        self.frame_times.push_back(frame_time);
        assert(self.frame_times@.drop_last() =~= kept);
        self.total_frame_time = self.total_frame_time + frame_time;
        self.last_frame_time = now_nanos;
    }

    /// Frames per second over the kept frame times: one second over their
    /// mean (in whole nanoseconds), rounded.
    pub fn fps(&self) -> (r: u32)
        requires
            self.wf(),
            self.frame_times@.len() > 0,
        ensures
            r == fps_of(self.total() / self.frame_times@.len() as int),
    {
        let average = self.total_frame_time / (self.frame_times.len() as u64);
        if average == 0 {
            return u32::MAX;
        }
        let a = average as u128;
        let r = (2 * (NANOS_PER_SECOND as u128) + a) / (2 * a);
        assert(r <= u32::MAX) by (nonlinear_arith)
            requires
                r == (2 * 1_000_000_000 + a) / (2 * a),
                a >= 1,
        ;
        r as u32
    }
}

} // verus!
