//! The overlay with its providers: startup, the first half of a frame, the
//! poll, and the record of its time.

use vstd::prelude::*;
use global_hotkey::GlobalHotKeyManager;
use nvml_wrapper::Nvml;
use sysinfo::System;
use crate::collector::{query_outcome, statscheck};
use crate::error::{CollectionError, InitError};
use crate::hotkey::{toggle_chord, toggle_token, HotkeyBinding};
use crate::overlay::{FrameAction, OverlayState};
use crate::providers::{new_hotkey_manager, new_system, pending_hotkey_events, register_chord};
use crate::stats::{CpuStats, GpuStats};

verus! {

/// The overlay's state together with the handles it polls and the hotkey
/// registration, which lasts as long as this value does.
pub struct StatsApp {
    /// What the panel shows.
    pub state: OverlayState,
    /// The token of the registered toggle chord.
    pub custom_hotkey: HotkeyBinding,
    /// The host's telemetry.
    pub system: System,
    /// The GPU library.
    pub nvml: Nvml,
    /// Holds the chord's registration.
    pub hotkey_manager: GlobalHotKeyManager,
}

impl StatsApp {
    /// Starts the overlay at `now` on an initialised GPU library, which it
    /// keeps, and registers the toggle chord, Alt+T, for the whole process.
    /// The state starts shown and empty: no provider is polled before the
    /// first frame, and the binding carries the token of the chord that was
    /// offered for registration.
    ///
    /// Fails when the hotkey facility cannot be initialised or refuses the chord.
    pub fn new(nvml: Nvml, now: u64) -> (res: Result<StatsApp, InitError>)
        ensures
            res matches Ok(app) ==> {
                &&& app.nvml == nvml
                &&& app.custom_hotkey.id == toggle_token()
                &&& app.state.is_initial(now)
                &&& app.state.wf()
            },
    {
        let system: System = new_system();
        let hotkey_manager: GlobalHotKeyManager = query_outcome(
            new_hotkey_manager(),
            InitError::HotkeyManager,
        )?;
        let (chord, custom_hotkey) = toggle_chord();
        let registration: Result<(), global_hotkey::Error> = register_chord(&hotkey_manager, chord);
        StatsApp::with_registration(nvml, system, hotkey_manager, custom_hotkey, registration, now)
    }

    /// What startup comes to once the chord has been offered to the hotkey
    /// facility.
    ///
    /// A refusal ends startup. Otherwise the overlay holds the handles it
    /// was given and starts shown and empty at `now`.
    pub fn with_registration(
        nvml: Nvml,
        system: System,
        hotkey_manager: GlobalHotKeyManager,
        custom_hotkey: HotkeyBinding,
        registration: Result<(), global_hotkey::Error>,
        now: u64,
    ) -> (res: Result<StatsApp, InitError>)
        ensures
            registration is Err ==> res is Err && res->Err_0 == InitError::HotkeyRegistration,
            registration is Ok ==> {
                &&& res is Ok
                &&& res->Ok_0.nvml == nvml
                &&& res->Ok_0.system == system
                &&& res->Ok_0.hotkey_manager == hotkey_manager
                &&& res->Ok_0.custom_hotkey == custom_hotkey
                &&& res->Ok_0.state.is_initial(now)
                &&& res->Ok_0.state.wf()
            },
    {
        match registration {
            Ok(_) => Ok(
                StatsApp {
                    state: OverlayState::new(now),
                    custom_hotkey,
                    system,
                    nvml,
                    hotkey_manager,
                },
            ),
            Err(_) => Err(InitError::HotkeyRegistration),
        }
    }

    /// The first half of a frame at `now`.
    ///
    /// Drains the hotkey events that are queued, without waiting, and
    /// advances the state by them: whatever was queued, the state and the
    /// action are those that `OverlayState::advance_frame` gives for it.
    pub fn update(&mut self, now: u64) -> (action: FrameAction)
        ensures
            exists|events: Seq<u32>|
                {
                    &&& final(self).state == #[trigger] old(self).state.after_frame(
                        events,
                        old(self).custom_hotkey,
                        now,
                    )
                    &&& action == old(self).state.action_for(events, old(self).custom_hotkey, now)
                },
            final(self).custom_hotkey == old(self).custom_hotkey,
            final(self).state.gpu_stats == old(self).state.gpu_stats,
            final(self).state.cpu_stats == old(self).state.cpu_stats,
            final(self).state.last_refresh == old(self).state.last_refresh,
            action.draws() == final(self).state.visible,
            old(self).state.wf() ==> final(self).state.wf(),
    {
        let events: Vec<u32> = pending_hotkey_events();
        let binding: HotkeyBinding = self.custom_hotkey;
        let action: FrameAction = self.state.advance_frame(&events, &binding, now);
        action
    }

    /// Polls both providers and takes over what they gave; the error of a
    /// failed poll is handed to the caller.
    ///
    /// On success both snapshots are replaced; on failure the state is as it
    /// was. Nothing but the two snapshots ever changes: the time of the poll
    /// is recorded by `mark_refreshed`.
    pub fn poll_stats(&mut self) -> (outcome: Result<(), CollectionError>)
        ensures
            exists|result: Result<(GpuStats, CpuStats), CollectionError>|
                {
                    &&& final(self).state == #[trigger] old(self).state.with_snapshots(result)
                    &&& result matches Ok(pair) ==> pair.0.wf() && pair.0.total_memory > 0
                        && pair.1.wf()
                    &&& outcome is Ok <==> result is Ok
                    &&& outcome is Err ==> result is Err && outcome->Err_0 == result->Err_0
                },
            outcome is Err ==> final(self).state == old(self).state,
            final(self).state.last_refresh == old(self).state.last_refresh,
            final(self).state.visible == old(self).state.visible,
            final(self).state.fps_counter == old(self).state.fps_counter,
            final(self).custom_hotkey == old(self).custom_hotkey,
            old(self).state.wf() ==> final(self).state.wf(),
    {
        let result: Result<(GpuStats, CpuStats), CollectionError> = statscheck(
            &mut self.system,
            &self.nvml,
        );
        let outcome: Result<(), CollectionError> = match &result {
            Ok(_) => Ok(()),
            Err(error) => Err(*error),
        };
        self.state.store_snapshots(result);
        outcome
    }

    /// Polls both providers and takes over what they gave.
    ///
    /// A failure is absorbed: the snapshots on display stay. Nothing but the
    /// two snapshots ever changes: the time of the poll is recorded by
    /// `mark_refreshed`.
    pub fn refresh_stats(&mut self)
        ensures
            exists|result: Result<(GpuStats, CpuStats), CollectionError>|
                {
                    &&& final(self).state == #[trigger] old(self).state.with_snapshots(result)
                    &&& result matches Ok(pair) ==> pair.0.wf() && pair.0.total_memory > 0
                        && pair.1.wf()
                },
            final(self).state.last_refresh == old(self).state.last_refresh,
            final(self).state.visible == old(self).state.visible,
            final(self).state.fps_counter == old(self).state.fps_counter,
            final(self).custom_hotkey == old(self).custom_hotkey,
            old(self).state.wf() ==> final(self).state.wf(),
    {
        let _ = self.poll_stats();
    }

    /// Records `now` as the time of the last poll. A frame that polled calls
    /// this after the poll, whether or not it succeeded, so that a provider
    /// that keeps failing is asked once a second and not once a frame.
    pub fn mark_refreshed(&mut self, now: u64)
        ensures
            final(self).state == (OverlayState { last_refresh: now, ..old(self).state }),
            final(self).custom_hotkey == old(self).custom_hotkey,
    {
        self.state.mark_refreshed(now);
    }
}

} // verus!
