use vstd::prelude::*;

verus! {

/// Relies on std's `SystemTime`: the wall clock, read as whole
/// milliseconds since the Unix epoch, or 0 when the clock reads earlier
/// than the epoch. Nothing is promised of the value — the clock may move
/// arbitrarily between reads.
#[verifier::external_body]
pub fn get_elapsed_time() -> (r: u64) {
    match std::time::SystemTime::now().duration_since(std::time::UNIX_EPOCH) {
        Ok(d) => d.as_millis() as u64,
        Err(_) => 0,
    }
}

/// Frame timing: the time of the previous frame, the gap between the two
/// most recent frames, and a frames-per-second figure refreshed once a
/// second.
pub struct Timer {
    pub last_time: u64,
    pub frame_leap: u64,
    pub delta: u64,
    pub current_frames: u64,
    pub fps: u64,
}

/// One tick of the timer at clock reading `now`: the frame gap is the time
/// since the previous tick (0 if the clock went backwards); once more than
/// a second has passed since the last rollover, the frame counter becomes
/// the published rate and restarts.
pub open spec fn spec_tick(t: Timer, now: u64) -> Timer {
    let leap: u64 = if now >= t.delta {
        (now - t.delta) as u64
    } else {
        0u64
    };
    let since_rollover = if now >= t.last_time {
        now - t.last_time
    } else {
        0
    };
    if since_rollover > 1000 {
        Timer {
            last_time: now,
            frame_leap: leap,
            delta: now,
            current_frames: 1u64,
            fps: t.current_frames,
        }
    } else {
        Timer {
            last_time: t.last_time,
            frame_leap: leap,
            delta: now,
            current_frames: if t.current_frames < u64::MAX {
                (t.current_frames + 1) as u64
            } else {
                u64::MAX
            },
            fps: t.fps,
        }
    }
}

impl Timer {
    /// A timer started now: every time field holds a fresh clock reading
    /// and no frame has been counted yet.
    pub fn new() -> (r: Timer)
        ensures
            r.current_frames == 0,
            r.fps == 0,
    {
        Timer {
            last_time: get_elapsed_time(),
            frame_leap: get_elapsed_time(),
            delta: get_elapsed_time(),
            current_frames: 0,
            fps: 0,
        }
    }

    /// The most recent frame gap, truncated to 32 bits.
    pub fn frame_leap(&self) -> (r: u32)
        ensures
            r == self.frame_leap as u32,
    {
        #[verifier::truncate]
        let r = self.frame_leap as u32;
        r
    }

    /// Advances the timer by exactly one tick at the given clock reading.
    pub fn tick_at(&mut self, now: u64)
        ensures
            *final(self) == spec_tick(*old(self), now),
    {
        let last_frame = self.delta;
        self.delta = now;
        self.frame_leap = if now >= last_frame {
            now - last_frame
        } else {
            0
        };

        let since_rollover = if now >= self.last_time {
            now - self.last_time
        } else {
            0
        };
        if since_rollover > 1000 {
            self.fps = self.current_frames;
            self.current_frames = 0;
            self.last_time = now;
        }

        if self.current_frames < u64::MAX {
            self.current_frames = self.current_frames + 1;
        }
    }

    /// One frame boundary: reads the clock once and ticks at that reading.
    pub fn tick(&mut self)
        ensures
            exists|now: u64| *final(self) == spec_tick(*old(self), now),
    {
        let now = get_elapsed_time();
        self.tick_at(now);
    }
}

} // verus!
