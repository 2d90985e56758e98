//! Synthetic presentation timestamps: every output frame is stamped with the
//! clock's position, which then advances by one fixed inter-frame duration.
//! Times are counted in ticks of `1 / time_base` seconds.
use vstd::prelude::*;

verus! {

/// The output clock.
#[derive(Clone, Copy, Debug, PartialEq, Eq, Structural)]
pub struct FrameClock {
    /// Timestamp of the next frame, in ticks.
    pub position: u64,
    /// Inter-frame duration, in ticks.
    pub step: u64,
    /// Ticks per second.
    pub time_base: u64,
}

impl FrameClock {
    pub open spec fn wf(self) -> bool {
        self.step > 0 && self.time_base > 0
    }

    /// `post` is `pre` after stamping one frame with `t`.
    pub open spec fn advanced(pre: FrameClock, post: FrameClock, t: u64) -> bool {
        &&& t == pre.position
        &&& post.position == pre.position + pre.step
        &&& post.step == pre.step
        &&& post.time_base == pre.time_base
    }

    /// A clock at zero that advances by `step` ticks of `1 / time_base` s.
    pub fn new(step: u64, time_base: u64) -> (r: FrameClock)
        requires
            step > 0,
            time_base > 0,
        ensures
            r.wf(),
            r.position == 0 && r.step == step && r.time_base == time_base,
    {
        FrameClock { position: 0, step, time_base }
    }

    /// A clock at zero for 24 frames per second: one tick of 1/24 s per frame.
    pub fn per_second_24() -> (r: FrameClock)
        ensures
            r.wf(),
            r.position == 0 && r.step == 1 && r.time_base == 24,
    {
        FrameClock::new(1, 24)
    }

    /// Stamps one frame: returns the current position and advances the clock
    /// by one step. `None`, with the clock unchanged, once the next position
    /// would not fit in 64 bits.
    pub fn next_pts(&mut self) -> (r: Option<u64>)
        ensures
            r is Some <==> old(self).position + old(self).step <= u64::MAX,
            r matches Some(t) ==> FrameClock::advanced(*old(self), *final(self), t),
            r is None ==> *final(self) == *old(self),
    {
        if self.position <= u64::MAX - self.step {
            let t = self.position;
            self.position = self.position + self.step;
            Some(t)
        } else {
            None
        }
    }
}

/// Two frames stamped one after the other get timestamps that differ by
/// exactly the inter-frame duration, so the later one is strictly larger.
pub proof fn lemma_consecutive_stamps(c0: FrameClock, c1: FrameClock, c2: FrameClock, t1: u64, t2: u64)
    requires
        c0.wf(),
        FrameClock::advanced(c0, c1, t1),
        FrameClock::advanced(c1, c2, t2),
    ensures
        t2 == t1 + c0.step,
        t1 < t2,
        c2.step == c0.step,
{
}

} // verus!
