//! The fixed-tick frame gate, over a monotonic clock measured in
//! microseconds. The caller reads the clock and sleeps; this type
//! only decides whether a frame is due and remembers how long the
//! last one really took.

use vstd::prelude::*;

verus! {

pub struct Chronometer {
    /// The target time between frames.
    pub frame_duration_us: u64,
    /// How long the last accepted frame really took.
    pub real_frame_duration_us: u64,
    /// The clock reading of the last accepted frame.
    pub last_update_us: u64,
}

impl Chronometer {
    /// Both durations are positive, so the rate computation below is
    /// meaningful.
    pub open spec fn wf(self) -> bool {
        self.frame_duration_us >= 1 && self.real_frame_duration_us >= 1
    }

    /// A gate for `target_fps` frames per second, starting at clock
    /// reading zero.
    pub fn new(target_fps: u32) -> (c: Chronometer)
        requires
            1 <= target_fps <= 1000000,
        ensures
            c.wf(),
            c.frame_duration_us == 1000000u64 / target_fps as u64,
            c.real_frame_duration_us == c.frame_duration_us,
            c.last_update_us == 0,
    {
        let frame_duration_us: u64 = 1000000u64 / (target_fps as u64);
        proof {
            assert(frame_duration_us >= 1) by (nonlinear_arith)
                requires
                    frame_duration_us == 1000000u64 as int / target_fps as int,
                    1 <= target_fps <= 1000000,
            ;
        }
        Chronometer {
            frame_duration_us,
            real_frame_duration_us: frame_duration_us,
            last_update_us: 0,
        }
    }

    /// Accept the frame when at least one target interval has passed
    /// since the last accepted frame; otherwise report that this
    /// frame should be skipped and change nothing.
    pub fn update(&mut self, now_us: u64) -> (ready: bool)
        requires
            old(self).wf(),
            now_us >= old(self).last_update_us,
        ensures
            final(self).wf(),
            ready == (now_us - old(self).last_update_us >= old(self).frame_duration_us),
            ready ==> *final(self) == (Chronometer {
                frame_duration_us: old(self).frame_duration_us,
                real_frame_duration_us: (now_us - old(self).last_update_us) as u64,
                last_update_us: now_us,
            }),
            !ready ==> *final(self) == *old(self),
    {
        let elapsed = now_us - self.last_update_us;
        if elapsed >= self.frame_duration_us {
            self.real_frame_duration_us = elapsed;
            self.last_update_us = now_us;
            true
        } else {
            false
        }
    }

    pub fn real_frame_duration_us(&self) -> (d: u64)
        ensures
            d == self.real_frame_duration_us,
    {
        self.real_frame_duration_us
    }

    /// The measured rate, in hundredths of frames per second.
    pub fn current_fps_centi(&self) -> (r: u64)
        requires
            self.wf(),
        ensures
            r == 100000000u64 as int / self.real_frame_duration_us as int,
    {
        100000000u64 / self.real_frame_duration_us
    }
}

} // verus!
