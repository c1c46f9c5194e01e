use vstd::prelude::*;

verus! {

/// Milliseconds of game time that one update step stands for.
pub const FPS: i64 = 16;

/// Frame timestamps are accepted up to this many milliseconds.
pub const TIME_LIMIT: i64 = 0x20_0000_0000_0000;

/// Fixed-step accumulator: turns frame timestamps into a number of update
/// steps, independent of the frame rate.
#[derive(Clone, Copy, Debug, PartialEq, Eq, Structural)]
pub struct GameLoop {
    pub last_frame: i64,
    pub accumulated_delta: i64,
}

impl GameLoop {
    pub open spec fn wf(self) -> bool {
        &&& 0 <= self.last_frame <= TIME_LIMIT
        &&& -FPS <= self.accumulated_delta <= 0
    }

    /// A loop whose first frame is measured from `now`.
    pub fn new(now: i64) -> (r: GameLoop)
        requires
            0 <= now <= TIME_LIMIT,
        ensures
            r == (GameLoop { last_frame: now, accumulated_delta: 0 }),
            r.wf(),
    {
        GameLoop { last_frame: now, accumulated_delta: 0 }
    }

    /// Takes the frame at `time` and returns how many update steps to run
    /// before drawing it: steps are run while the accumulated time is not
    /// negative, each consuming one step's worth of it, so every frame that
    /// brings the accumulator to zero or above runs at least one.
    pub fn advance(&mut self, time: i64) -> (steps: u64)
        requires
            old(self).wf(),
            old(self).last_frame <= time <= TIME_LIMIT,
        ensures
            final(self).wf(),
            final(self).last_frame == time,
            ({
                let due = old(self).accumulated_delta + time - old(self).last_frame;
                &&& final(self).accumulated_delta == due - steps * FPS
                &&& due < 0 ==> steps == 0
                &&& due >= 0 ==> final(self).accumulated_delta < 0
            }),
    {
        self.accumulated_delta = self.accumulated_delta + (time - self.last_frame);
        let ghost due = self.accumulated_delta;
        let mut steps: u64 = 0;
        while self.accumulated_delta >= 0
            invariant
                -FPS <= self.accumulated_delta <= TIME_LIMIT,
                self.accumulated_delta == due - steps * FPS,
                steps * FPS <= due + FPS,
                due <= TIME_LIMIT,
                due < 0 ==> steps == 0,
            decreases self.accumulated_delta + FPS,
        {
            self.accumulated_delta = self.accumulated_delta - FPS;
            steps = steps + 1;
        }
        self.last_frame = time;
        steps
    }
}

} // verus!
