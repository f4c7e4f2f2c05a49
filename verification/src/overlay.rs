//! The overlay's state and the decisions taken on each frame.
//!
//! A frame has two halves. `advance_frame` applies the drained hotkey
//! events, counts the frame if the panel is shown and says what is to be
//! done. The caller draws, runs the poll if one was asked for, and hands
//! its outcome to `store_collection`.

use vstd::prelude::*;
use crate::clock::{
    elapsed,
    elapsed_since,
    HIDDEN_REPAINT_MILLIS,
    REFRESH_INTERVAL,
    VISIBLE_REPAINT_MILLIS,
};
use crate::error::CollectionError;
use crate::fps::FpsCounter;
use crate::hotkey::{
    apply_hotkey_events,
    lemma_noise_ignored,
    lemma_toggle_and_back,
    matching_events,
    visibility_after,
    HotkeyBinding,
};
use crate::stats::{CpuStats, GpuStats};

verus! {

/// What is to be done with a frame.
#[derive(Clone, Copy, Debug, PartialEq, Eq, Structural)]
pub enum FrameAction {
    /// The panel is hidden: draw nothing, poll nothing.
    Sleep,
    /// Draw the panel from the stored snapshots.
    Draw,
    /// Draw the panel from the stored snapshots, then poll the providers.
    DrawAndCollect,
}

/// Everything the panel shows, and the bookkeeping of the loop.
#[derive(Clone, Debug, PartialEq, Eq)]
pub struct OverlayState {
    pub gpu_stats: GpuStats,
    pub cpu_stats: CpuStats,
    /// When the providers were last polled, whether or not that succeeded.
    pub last_refresh: u64,
    pub visible: bool,
    pub fps_counter: FpsCounter,
}

/// One frame as the loop sees it: the events drained at its start and the
/// time at which it runs.
pub struct FrameInput {
    pub events: Seq<u32>,
    pub now: u64,
}

impl FrameAction {
    /// Whether the panel is drawn.
    pub open spec fn draws(self) -> bool {
        self != FrameAction::Sleep
    }

    /// Whether the providers are polled.
    pub open spec fn collects(self) -> bool {
        self == FrameAction::DrawAndCollect
    }

    /// The delay in milliseconds after which the next frame is asked for.
    pub open spec fn repaint_delay(self) -> u64 {
        if self == FrameAction::Sleep {
            HIDDEN_REPAINT_MILLIS
        } else {
            VISIBLE_REPAINT_MILLIS
        }
    }

    /// The delay in milliseconds after which the next frame is asked for:
    /// a second while hidden, a display frame while shown.
    pub fn repaint_after_millis(&self) -> (millis: u64)
        ensures
            millis == self.repaint_delay(),
    {
        match self {
            FrameAction::Sleep => HIDDEN_REPAINT_MILLIS,
            _ => VISIBLE_REPAINT_MILLIS,
        }
    }

    /// Whether the panel is to be drawn in this frame.
    pub fn should_draw(&self) -> (draw: bool)
        ensures
            draw == self.draws(),
    {
        match self {
            FrameAction::Sleep => false,
            _ => true,
        }
    }

    /// Whether the providers are to be polled in this frame.
    pub fn should_collect(&self) -> (collect: bool)
        ensures
            collect == self.collects(),
    {
        match self {
            FrameAction::DrawAndCollect => true,
            _ => false,
        }
    }
}

impl OverlayState {
    /// Both snapshots are well formed.
    pub open spec fn wf(&self) -> bool {
        self.gpu_stats.wf() && self.cpu_stats.wf()
    }

    /// The state after the first half of a frame.
    ///
    /// The events decide the visibility. A frame is counted only if the
    /// panel is shown after them. Nothing else changes.
    pub open spec fn after_frame(self, events: Seq<u32>, binding: HotkeyBinding, now: u64)
        -> OverlayState {
        let visible = visibility_after(self.visible, events, binding.id);
        OverlayState {
            visible,
            fps_counter: if visible {
                self.fps_counter.after_update(now)
            } else {
                self.fps_counter
            },
            ..self
        }
    }

    /// What the first half of a frame asks for.
    ///
    /// Hidden after the events: nothing. Shown: a draw, and a poll as well
    /// once a second or more has passed since the last one.
    pub open spec fn action_for(self, events: Seq<u32>, binding: HotkeyBinding, now: u64)
        -> FrameAction {
        if !visibility_after(self.visible, events, binding.id) {
            FrameAction::Sleep
        } else if elapsed(now, self.last_refresh) >= REFRESH_INTERVAL {
            FrameAction::DrawAndCollect
        } else {
            FrameAction::Draw
        }
    }

    /// The state after a poll that ended with `result`: a success replaces
    /// both snapshots, a failure leaves them, and nothing else changes.
    pub open spec fn with_snapshots(self, result: Result<(GpuStats, CpuStats), CollectionError>)
        -> OverlayState {
        match result {
            Ok((gpu, cpu)) => OverlayState { gpu_stats: gpu, cpu_stats: cpu, ..self },
            Err(_) => self,
        }
    }

    /// The state after a poll that ended at `now` with `result`.
    ///
    /// A success replaces both snapshots; a failure leaves them. The time of
    /// the poll is recorded either way.
    pub open spec fn after_collection(
        self,
        result: Result<(GpuStats, CpuStats), CollectionError>,
        now: u64,
    ) -> OverlayState {
        OverlayState { last_refresh: now, ..self.with_snapshots(result) }
    }

    /// The state after the first halves of `frames`, in order, when no poll
    /// is stored in between.
    pub open spec fn after_frames(self, frames: Seq<FrameInput>, binding: HotkeyBinding)
        -> OverlayState
        decreases frames.len(),
    {
        if frames.len() == 0 {
            self
        } else {
            self.after_frames(frames.drop_last(), binding).after_frame(
                frames.last().events,
                binding,
                frames.last().now,
            )
        }
    }

    /// How many of `frames` ask for a poll, when none is stored in between.
    pub open spec fn polls_requested(self, frames: Seq<FrameInput>, binding: HotkeyBinding)
        -> nat
        decreases frames.len(),
    {
        if frames.len() == 0 {
            0
        } else {
            let before = self.after_frames(frames.drop_last(), binding);
            self.polls_requested(frames.drop_last(), binding) + if before.action_for(
                frames.last().events,
                binding,
                frames.last().now,
            ).collects() {
                1nat
            } else {
                0nat
            }
        }
    }

    /// Whether this is the state at a startup at `now`: shown, with empty
    /// snapshots, as if polled at `now`, and with an empty frame window that
    /// starts at `now`.
    pub open spec fn is_initial(&self, now: u64) -> bool {
        &&& self.visible
        &&& self.gpu_stats.is_empty()
        &&& self.cpu_stats == (CpuStats { total_usage: 0, temperature: None, fan_speed: None })
        &&& self.last_refresh == now
        &&& self.fps_counter == (FpsCounter { frames: 0, last_fps_update: now, current_fps: 0 })
    }

    /// The state at startup: shown, with empty snapshots, as if polled at
    /// `now`, and with a frame window that starts at `now`.
    pub fn new(now: u64) -> (state: OverlayState)
        ensures
            state.is_initial(now),
            state.wf(),
    {
        OverlayState {
            gpu_stats: GpuStats::empty(),
            cpu_stats: CpuStats::empty(),
            last_refresh: now,
            visible: true,
            fps_counter: FpsCounter::new(now),
        }
    }

    /// Counts one frame at `now`.
    pub fn record_frame(&mut self, now: u64)
        ensures
            *final(self) == (OverlayState {
                fps_counter: old(self).fps_counter.after_update(now),
                ..*old(self)
            }),
    {
        self.fps_counter.update(now);
    }

    /// The frame rate of the last full window.
    pub fn current_fps(&self) -> (fps: u32)
        ensures
            fps == self.fps_counter.current_fps,
    {
        self.fps_counter.current_fps()
    }

    /// Whether a poll is due at `now`.
    pub fn collection_due(&self, now: u64) -> (due: bool)
        ensures
            due == (elapsed(now, self.last_refresh) >= REFRESH_INTERVAL),
    {
        elapsed_since(now, self.last_refresh) >= REFRESH_INTERVAL
    }

    /// The first half of a frame: applies `events`, counts the frame if the
    /// panel is shown, and says what is to be done.
    pub fn advance_frame(&mut self, events: &Vec<u32>, binding: &HotkeyBinding, now: u64)
        -> (action: FrameAction)
        ensures
            *final(self) == old(self).after_frame(events@, *binding, now),
            action == old(self).action_for(events@, *binding, now),
            old(self).wf() ==> final(self).wf(),
    {
        self.visible = apply_hotkey_events(self.visible, events, binding);
        if !self.visible {
            return FrameAction::Sleep;
        }
        self.record_frame(now);
        if self.collection_due(now) {
            FrameAction::DrawAndCollect
        } else {
            FrameAction::Draw
        }
    }

    /// Takes over what a poll gave: both snapshots on success, nothing on
    /// failure. The time of the poll is not recorded here.
    pub fn store_snapshots(&mut self, result: Result<(GpuStats, CpuStats), CollectionError>)
        ensures
            *final(self) == old(self).with_snapshots(result),
            result is Err ==> *final(self) == *old(self),
            old(self).wf() && (result matches Ok(pair) ==> pair.0.wf() && pair.1.wf())
                ==> final(self).wf(),
    {
        match result {
            Ok((gpu, cpu)) => {
                self.gpu_stats = gpu;
                self.cpu_stats = cpu;
            },
            Err(_) => {},
        }
    }

    /// Records `now` as the time of the last poll, whether or not that poll
    /// succeeded.
    pub fn mark_refreshed(&mut self, now: u64)
        ensures
            *final(self) == (OverlayState { last_refresh: now, ..*old(self) }),
    {
        self.last_refresh = now;
    }

    /// The second half of a frame in which a poll ran: stores its outcome
    /// and records its time.
    pub fn store_collection(
        &mut self,
        result: Result<(GpuStats, CpuStats), CollectionError>,
        now: u64,
    )
        ensures
            *final(self) == old(self).after_collection(result, now),
            result is Err ==> final(self).gpu_stats == old(self).gpu_stats,
            result is Err ==> final(self).cpu_stats == old(self).cpu_stats,
            old(self).wf() && (result matches Ok(pair) ==> pair.0.wf() && pair.1.wf())
                ==> final(self).wf(),
    {
        self.store_snapshots(result);
        self.mark_refreshed(now);
    }
}

/// A failed poll after a successful one leaves the values of the successful
/// one on display, whatever the error and whenever it comes.
pub proof fn lemma_failed_poll_keeps_snapshots(
    state: OverlayState,
    gpu: GpuStats,
    cpu: CpuStats,
    first: u64,
    error: CollectionError,
    second: u64,
)
    ensures
        state.after_collection(Ok((gpu, cpu)), first).after_collection(
            Err(error),
            second,
        ).gpu_stats == gpu,
        state.after_collection(Ok((gpu, cpu)), first).after_collection(
            Err(error),
            second,
        ).cpu_stats == cpu,
        state.after_collection(Err(error), second).gpu_stats == state.gpu_stats,
        state.after_collection(Err(error), second).cpu_stats == state.cpu_stats,
        state.after_collection(Err(error), second).last_refresh == second,
{
}

/// A frame that leaves the panel hidden asks for no draw and no poll,
/// however long ago the last poll was, and counts no frame.
pub proof fn lemma_hidden_frame_is_idle(
    state: OverlayState,
    events: Seq<u32>,
    binding: HotkeyBinding,
    now: u64,
)
    requires
        !state.after_frame(events, binding, now).visible,
    ensures
        state.action_for(events, binding, now) == FrameAction::Sleep,
        !state.action_for(events, binding, now).collects(),
        state.action_for(events, binding, now).repaint_delay() == HIDDEN_REPAINT_MILLIS,
        state.after_frame(events, binding, now).fps_counter == state.fps_counter,
        state.after_frame(events, binding, now).last_refresh == state.last_refresh,
{
}

/// While the panel is hidden and no event carries the toggle's token, any
/// run of frames leaves the state as it was and asks for no poll at all.
pub proof fn lemma_hidden_run_never_polls(
    state: OverlayState,
    frames: Seq<FrameInput>,
    binding: HotkeyBinding,
)
    requires
        !state.visible,
        forall|i: int|
            0 <= i < frames.len() ==> matching_events((#[trigger] frames[i]).events, binding.id)
                == 0,
    ensures
        state.after_frames(frames, binding) == state,
        state.polls_requested(frames, binding) == 0,
    decreases frames.len(),
{
    if frames.len() > 0 {
        lemma_hidden_run_never_polls(state, frames.drop_last(), binding);
        assert(matching_events(frames[frames.len() - 1].events, binding.id) == 0);
    }
}

/// A frame that shows the panel asks for a poll exactly when a second or
/// more has passed since the last one, and always asks for the short delay.
pub proof fn lemma_visible_frame_polls_when_due(
    state: OverlayState,
    events: Seq<u32>,
    binding: HotkeyBinding,
    now: u64,
)
    requires
        state.after_frame(events, binding, now).visible,
    ensures
        state.action_for(events, binding, now).draws(),
        state.action_for(events, binding, now).collects() <==> elapsed(now, state.last_refresh)
            >= REFRESH_INTERVAL,
        state.action_for(events, binding, now).repaint_delay() == VISIBLE_REPAINT_MILLIS,
        state.after_frame(events, binding, now).fps_counter == state.fps_counter.after_update(
            now,
        ),
{
}

/// One matching event in a frame flips the visibility, a second one flips
/// it back, and a frame whose events all belong to other bindings leaves it.
pub proof fn lemma_frame_toggles(
    state: OverlayState,
    events: Seq<u32>,
    binding: HotkeyBinding,
    now: u64,
)
    ensures
        events == seq![binding.id] ==> state.after_frame(events, binding, now).visible
            == !state.visible,
        events == seq![binding.id, binding.id] ==> state.after_frame(
            events,
            binding,
            now,
        ).visible == state.visible,
        (forall|i: int| 0 <= i < events.len() ==> events[i] != binding.id) ==> state.after_frame(
            events,
            binding,
            now,
        ).visible == state.visible,
{
    lemma_toggle_and_back(state.visible, binding.id);
    if forall|i: int| 0 <= i < events.len() ==> events[i] != binding.id {
        lemma_noise_ignored(state.visible, events, binding.id);
    }
}

/// After a poll, failed or not, no frame asks for another until a second
/// has passed: a provider that keeps failing is tried once a second.
pub proof fn lemma_no_poll_within_interval(
    state: OverlayState,
    result: Result<(GpuStats, CpuStats), CollectionError>,
    polled_at: u64,
    events: Seq<u32>,
    binding: HotkeyBinding,
    now: u64,
)
    requires
        elapsed(now, polled_at) < REFRESH_INTERVAL,
    ensures
        !state.after_collection(result, polled_at).action_for(events, binding, now).collects(),
        state.after_collection(result, polled_at).after_frame(events, binding, now).last_refresh
            == polled_at,
{
}

} // verus!
