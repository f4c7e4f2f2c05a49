//! Frame rate over a tumbling one-second window.

use vstd::prelude::*;
use crate::clock::{elapsed, elapsed_since, FPS_WINDOW};

verus! {

/// Counts frames and reports how many fell into the last full window.
#[derive(Clone, Copy, Debug, PartialEq, Eq, Structural)]
pub struct FpsCounter {
    /// Frames recorded since the window started.
    pub frames: u32,
    /// When the window started.
    pub last_fps_update: u64,
    /// Frames counted in the last window that was closed.
    pub current_fps: u32,
}

/// The tally after one more frame; it stays at the largest value it can hold.
pub open spec fn next_tally(frames: u32) -> u32 {
    if frames < u32::MAX {
        (frames + 1) as u32
    } else {
        frames
    }
}

impl FpsCounter {
    /// The counter after a frame recorded at `now`.
    ///
    /// The frame is counted first. If the window has then lasted a second or
    /// more, the tally becomes the rate and a new, empty window starts at `now`.
    pub open spec fn after_update(self, now: u64) -> FpsCounter {
        if elapsed(now, self.last_fps_update) >= FPS_WINDOW {
            FpsCounter { frames: 0, last_fps_update: now, current_fps: next_tally(self.frames) }
        } else {
            FpsCounter { frames: next_tally(self.frames), ..self }
        }
    }

    /// The counter after frames recorded at `times`, in that order.
    pub open spec fn after_updates(self, times: Seq<u64>) -> FpsCounter
        decreases times.len(),
    {
        if times.len() == 0 {
            self
        } else {
            self.after_updates(times.drop_last()).after_update(times.last())
        }
    }

    /// A counter with an empty window that starts at `now` and no rate yet.
    pub fn new(now: u64) -> (counter: FpsCounter)
        ensures
            counter == (FpsCounter { frames: 0, last_fps_update: now, current_fps: 0 }),
    {
        FpsCounter { frames: 0, last_fps_update: now, current_fps: 0 }
    }

    /// Records one frame at `now`.
    pub fn update(&mut self, now: u64)
        ensures
            *final(self) == old(self).after_update(now),
    {
        if self.frames < u32::MAX {
            self.frames = self.frames + 1;
        }
        if elapsed_since(now, self.last_fps_update) >= FPS_WINDOW {
            self.current_fps = self.frames;
            self.frames = 0;
            self.last_fps_update = now;
        }
    }

    /// The rate of the last window that was closed; zero before the first.
    pub fn current_fps(&self) -> (fps: u32)
        ensures
            fps == self.current_fps,
    {
        self.current_fps
    }
}

/// Frames that all fall inside the running window are only counted: the
/// window's start and the reported rate stay as they were.
pub proof fn lemma_frames_inside_window(counter: FpsCounter, times: Seq<u64>)
    requires
        forall|i: int|
            0 <= i < times.len() ==> elapsed(#[trigger] times[i], counter.last_fps_update)
                < FPS_WINDOW,
        counter.frames + times.len() <= u32::MAX,
    ensures
        counter.after_updates(times) == (FpsCounter {
            frames: (counter.frames + times.len()) as u32,
            ..counter
        }),
    decreases times.len(),
{
    if times.len() > 0 {
        let head: Seq<u64> = times.drop_last();
        assert forall|i: int| 0 <= i < head.len() implies elapsed(
            #[trigger] head[i],
            counter.last_fps_update,
        ) < FPS_WINDOW by {
            assert(head[i] == times[i]);
        }
        lemma_frames_inside_window(counter, head);
        assert(elapsed(times[times.len() - 1], counter.last_fps_update) < FPS_WINDOW);
    }
}

/// A window is closed by the first frame that comes a second or more after
/// its start. That frame is itself counted: after `times.len()` frames
/// inside the window and the closing frame at `closing`, the reported rate is
/// the old tally plus `times.len() + 1`, the tally is zero, and the new
/// window starts at `closing`.
pub proof fn lemma_window_closes(counter: FpsCounter, times: Seq<u64>, closing: u64)
    requires
        forall|i: int|
            0 <= i < times.len() ==> elapsed(#[trigger] times[i], counter.last_fps_update)
                < FPS_WINDOW,
        elapsed(closing, counter.last_fps_update) >= FPS_WINDOW,
        counter.frames + times.len() + 1 <= u32::MAX,
    ensures
        counter.after_updates(times).after_update(closing) == (FpsCounter {
            frames: 0,
            last_fps_update: closing,
            current_fps: (counter.frames + times.len() + 1) as u32,
        }),
        counter.after_updates(times.push(closing)) == counter.after_updates(times).after_update(
            closing,
        ),
{
    lemma_frames_inside_window(counter, times);
    assert(times.push(closing).drop_last() == times);
}

} // verus!
