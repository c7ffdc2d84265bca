//! Frame-rate measurement of a panel that redraws every frame.
//!
//! Each redraw hands the meter the time of the frame, in nanoseconds on a
//! monotonic clock. The meter counts frames until at least half a second has
//! gone by, then publishes that window as the current frame-rate reading
//! and starts a new window.
use vstd::prelude::*;

verus! {

/// Length of a measuring window: half a second, in nanoseconds.
pub const FPS_WINDOW_NANOS: u64 = 500_000_000;

/// A frame-rate reading: `frames` frames in `window_nanos` nanoseconds,
/// that is `frames * 10^9 / window_nanos` frames per second. The reading
/// before the first window has closed is `0` frames in `0` nanoseconds,
/// read as 0 frames per second.
#[derive(PartialEq, Eq, Structural, Clone, Copy, Debug)]
pub struct FpsSample {
    pub frames: u64,
    pub window_nanos: u64,
}

/// Frame counter with the time of the last frame and the open window.
pub struct FrameMeter {
    last_frame_nanos: u64,
    frame_count: u64,
    accumulated_nanos: u64,
    fps: FpsSample,
}

/// Time between two frames: `now - last`, or 0 if the clock reads earlier
/// than the last frame.
pub open spec fn spec_frame_delta(now: u64, last: u64) -> u64 {
    now.saturating_sub(last)
}

/// A meter goes from `before` to `after` by recording a frame at `now`: the
/// frame is counted, its delta is added to the open window (saturating), and
/// once the window reaches half a second it becomes the reading and a new,
/// empty window opens.
pub open spec fn frame_recorded(before: FrameMeter, after: FrameMeter, now: u64) -> bool {
    let total = before.window_nanos().saturating_add(spec_frame_delta(now, before.last_frame()));
    let frames = before.frames_in_window() + 1;
    &&& after.last_frame() == now
    &&& if total >= FPS_WINDOW_NANOS {
        &&& after.frames_in_window() == 0
        &&& after.window_nanos() == 0
        &&& after.fps() == FpsSample { frames: frames as u64, window_nanos: total }
    } else {
        &&& after.frames_in_window() == frames
        &&& after.window_nanos() == total
        &&& after.fps() == before.fps()
    }
}

impl FrameMeter {
    /// The open window stays shorter than half a second; a published reading
    /// covers at least one frame over at least half a second.
    #[verifier::type_invariant]
    spec fn well_formed(self) -> bool {
        &&& self.accumulated_nanos < FPS_WINDOW_NANOS
        &&& self.fps.window_nanos == 0 ==> self.fps.frames == 0
        &&& self.fps.window_nanos != 0 ==> self.fps.window_nanos >= FPS_WINDOW_NANOS
            && self.fps.frames >= 1
    }

    /// Time of the last recorded frame.
    pub closed spec fn last_frame(self) -> u64 {
        self.last_frame_nanos
    }

    /// Frames counted in the open window.
    pub closed spec fn frames_in_window(self) -> u64 {
        self.frame_count
    }

    /// Time covered by the open window.
    pub closed spec fn window_nanos(self) -> u64 {
        self.accumulated_nanos
    }

    /// The current reading.
    pub closed spec fn fps(self) -> FpsSample {
        self.fps
    }

    /// A meter whose last frame is at `now_nanos`, with an empty window and
    /// the zero reading.
    pub fn new(now_nanos: u64) -> (m: Self)
        ensures
            m.last_frame() == now_nanos,
            m.frames_in_window() == 0,
            m.window_nanos() == 0,
            m.fps() == (FpsSample { frames: 0, window_nanos: 0 }),
    {
        FrameMeter {
            last_frame_nanos: now_nanos,
            frame_count: 0,
            accumulated_nanos: 0,
            fps: FpsSample { frames: 0, window_nanos: 0 },
        }
    }

    /// Records a frame drawn at `now_nanos`.
    pub fn record_frame(&mut self, now_nanos: u64)
        requires
            old(self).frames_in_window() < u64::MAX,
        ensures
            frame_recorded(*old(self), *final(self), now_nanos),
            final(self).window_nanos() < FPS_WINDOW_NANOS,
            final(self).last_frame() == now_nanos,
            final(self).frames_in_window() == 0 ==> final(self).window_nanos() == 0,
            final(self).frames_in_window() == 0 || final(self).frames_in_window()
                == old(self).frames_in_window() + 1,
            final(self).fps().window_nanos == 0 ==> final(self).fps().frames == 0,
            final(self).fps().window_nanos != 0 ==> final(self).fps().window_nanos
                >= FPS_WINDOW_NANOS && final(self).fps().frames >= 1,
    {
        proof {
            use_type_invariant(&*self);
        }
        let delta = now_nanos.saturating_sub(self.last_frame_nanos);
        let frames = self.frame_count + 1;
        let total = self.accumulated_nanos.saturating_add(delta);
        if total >= FPS_WINDOW_NANOS {
            *self = FrameMeter {
                last_frame_nanos: now_nanos,
                frame_count: 0,
                accumulated_nanos: 0,
                fps: FpsSample { frames, window_nanos: total },
            };
        } else {
            let fps = self.fps;
            *self = FrameMeter {
                last_frame_nanos: now_nanos,
                frame_count: frames,
                accumulated_nanos: total,
                fps,
            };
        }
        proof {
            use_type_invariant(&*self);
        }
    }

    /// The current reading; it is the zero reading or covers at least one
    /// frame over at least half a second.
    pub fn fps_sample(&self) -> (s: FpsSample)
        ensures
            s == self.fps(),
            s.window_nanos == 0 ==> s.frames == 0,
            s.window_nanos != 0 ==> s.window_nanos >= FPS_WINDOW_NANOS && s.frames >= 1,
    {
        proof {
            use_type_invariant(self);
        }
        self.fps
    }

    /// Frames counted in the open window.
    pub fn frame_count(&self) -> (n: u64)
        ensures
            n == self.frames_in_window(),
    {
        self.frame_count
    }

    /// Time covered by the open window; always under half a second.
    pub fn accumulated_nanos(&self) -> (t: u64)
        ensures
            t == self.window_nanos(),
            t < FPS_WINDOW_NANOS,
    {
        proof {
            use_type_invariant(self);
        }
        self.accumulated_nanos
    }

    /// Time of the last recorded frame.
    pub fn last_frame_nanos(&self) -> (t: u64)
        ensures
            t == self.last_frame(),
    {
        self.last_frame_nanos
    }
}

/// Recording a frame loses neither frames nor time: the frame joins the open
/// window; the window closes exactly when its time, with this frame's delta,
/// reaches half a second; then its frames and its time (unless the sum
/// saturated) become the new reading and the new window is empty, so each
/// reading covers exactly the time since the previous one.
pub proof fn lemma_frames_and_time_conserved(before: FrameMeter, after: FrameMeter, now: u64)
    requires
        before.frames_in_window() < u64::MAX,
        frame_recorded(before, after, now),
    ensures
        ({
            let delta: int = if now >= before.last_frame() {
                now - before.last_frame()
            } else {
                0
            };
            let published = after.frames_in_window() == 0;
            &&& after.last_frame() == now
            &&& published ==> after.fps().frames == before.frames_in_window() + 1
            &&& published ==> after.fps().window_nanos >= 500_000_000
            &&& published ==> after.window_nanos() == 0
            &&& published ==> before.window_nanos() + delta >= 500_000_000
            &&& !published ==> before.window_nanos() + delta < 500_000_000
            &&& !published ==> after.window_nanos() == before.window_nanos() + delta
            &&& !published ==> after.frames_in_window() == before.frames_in_window() + 1
                && after.fps() == before.fps()
            &&& before.window_nanos() + delta <= u64::MAX ==> (if published {
                after.fps().window_nanos
            } else {
                after.window_nanos()
            }) == before.window_nanos() + delta
        }),
{
}

} // verus!
