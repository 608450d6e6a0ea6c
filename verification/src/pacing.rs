//! Frame pacing and the rolling frames-per-second counter.

use vstd::prelude::*;

verus! {

/// The target frame interval, in microseconds (roughly 60 frames per
/// second).
pub const FRAME_INTERVAL_US: u64 = 16667;

/// One second, in microseconds: the FPS counter's window length.
pub const FPS_WINDOW_US: u64 = 1_000_000;

/// How long to sleep before the next frame: the part of the target
/// interval that rendering and presenting left unused, and zero when they
/// took the whole interval or more (never negative, never a panic).
pub fn sleep_duration(target_us: u64, elapsed_us: u64) -> (r: u64)
    ensures
        r == if elapsed_us >= target_us {
            0u64
        } else {
            (target_us - elapsed_us) as u64
        },
        r <= target_us,
{
    if elapsed_us >= target_us {
        0
    } else {
        target_us - elapsed_us
    }
}

/// The frame rate a window reports: frames scaled to one second, rounded
/// to the nearest whole number.
pub open spec fn window_fps(frames: nat, elapsed_us: nat) -> nat {
    ((frames * 1_000_000 + elapsed_us / 2) / elapsed_us) as nat
}

/// The counter after one recorded frame: the count grows (saturating);
/// when the window has reached one second, the reported rate becomes the
/// window's count scaled to one second (clamped to the representable
/// range) and the count restarts.
pub open spec fn spec_record(c: FpsCounter, elapsed_us: u64) -> FpsCounter {
    let counted: u32 = if c.frames == u32::MAX {
        u32::MAX
    } else {
        (c.frames + 1) as u32
    };
    if elapsed_us >= FPS_WINDOW_US {
        FpsCounter {
            frames: 0,
            fps: if window_fps(counted as nat, elapsed_us as nat) > u32::MAX as nat {
                u32::MAX
            } else {
                window_fps(counted as nat, elapsed_us as nat) as u32
            },
        }
    } else {
        FpsCounter { frames: counted, fps: c.fps }
    }
}

/// A rolling one-second frames-per-second counter.
#[derive(Clone, Copy, Debug, PartialEq, Eq, Structural)]
pub struct FpsCounter {
    /// Frames counted in the current window.
    pub frames: u32,
    /// The rate the last full window reported.
    pub fps: u32,
}

impl FpsCounter {
    /// A fresh counter: nothing counted, rate zero.
    pub fn new() -> (c: FpsCounter)
        ensures
            c == (FpsCounter { frames: 0, fps: 0 }),
    {
        FpsCounter { frames: 0, fps: 0 }
    }

    /// The rate the last full window reported.
    pub fn fps(&self) -> (r: u32)
        ensures
            r == self.fps,
    {
        self.fps
    }

    /// Counts one presented frame. `elapsed_us` is the time since the
    /// current window began; when it reaches one second the window closes:
    /// the reported rate becomes the closed window's frame count scaled to
    /// one second, the count restarts, and the caller restarts its window
    /// timer (signalled by the returned flag).
    pub fn record_frame(&mut self, elapsed_us: u64) -> (reset: bool)
        ensures
            reset == (elapsed_us >= FPS_WINDOW_US),
            *final(self) == spec_record(*old(self), elapsed_us),
    {
        let counted: u32 = if self.frames == u32::MAX {
            u32::MAX
        } else {
            self.frames + 1
        };
        if elapsed_us >= FPS_WINDOW_US {
            let num: u64 = (counted as u64) * 1_000_000 + elapsed_us / 2;
            let q: u64 = num / elapsed_us;
            self.fps = if q > u32::MAX as u64 {
                u32::MAX
            } else {
                q as u32
            };
            self.frames = 0;
            true
        } else {
            self.frames = counted;
            self.fps = self.fps;
            false
        }
    }
}

} // verus!
