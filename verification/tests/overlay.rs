use perf_overlay::clock::{HIDDEN_REPAINT_MILLIS, NANOS_PER_SECOND, VISIBLE_REPAINT_MILLIS};
use perf_overlay::error::CollectionError;
use perf_overlay::fps::FpsCounter;
use perf_overlay::hotkey::HotkeyBinding;
use perf_overlay::overlay::{FrameAction, OverlayState};
use perf_overlay::stats::{CpuStats, GpuReadings, GpuStats};

const TOGGLE: HotkeyBinding = HotkeyBinding { id: 42 };

fn fixed_readings() -> GpuReadings {
    GpuReadings {
        name: String::from("Fixed GPU"),
        used_memory: 2_048_000_000,
        total_memory: 8_192_000_000,
        temperature: 55,
        core_clock: 1500,
        memory_clock: 6000,
        fan_speed: 30,
        power_usage: 98_700,
    }
}

fn fixed_poll() -> Result<(GpuStats, CpuStats), CollectionError> {
    Ok((GpuStats::from_readings(fixed_readings())?, CpuStats::from_usage(12)))
}

#[test]
fn state_starts_shown_and_empty() {
    let state = OverlayState::new(77);
    assert!(state.visible);
    assert_eq!(state.gpu_stats, GpuStats::empty());
    assert_eq!(state.cpu_stats, CpuStats::empty());
    assert_eq!(state.last_refresh, 77);
    assert_eq!(state.fps_counter, FpsCounter::new(77));
    assert_eq!(state.current_fps(), 0);
}

#[test]
fn repaint_delays_follow_the_action() {
    assert_eq!(FrameAction::Sleep.repaint_after_millis(), 1000);
    assert_eq!(FrameAction::Draw.repaint_after_millis(), 16);
    assert_eq!(FrameAction::DrawAndCollect.repaint_after_millis(), 16);
    assert_eq!(HIDDEN_REPAINT_MILLIS, 1000);
    assert_eq!(VISIBLE_REPAINT_MILLIS, 16);
}

#[test]
fn actions_say_what_is_drawn_and_polled() {
    assert!(!FrameAction::Sleep.should_draw());
    assert!(!FrameAction::Sleep.should_collect());
    assert!(FrameAction::Draw.should_draw());
    assert!(!FrameAction::Draw.should_collect());
    assert!(FrameAction::DrawAndCollect.should_draw());
    assert!(FrameAction::DrawAndCollect.should_collect());
}

#[test]
fn visible_frame_before_the_interval_only_draws() {
    let mut state = OverlayState::new(0);
    let action = state.advance_frame(&vec![], &TOGGLE, NANOS_PER_SECOND - 1);
    assert_eq!(action, FrameAction::Draw);
    assert_eq!(state.fps_counter.frames, 1);
    assert_eq!(state.last_refresh, 0);
    assert!(state.visible);
}

#[test]
fn visible_frame_at_the_interval_asks_for_a_poll() {
    let mut state = OverlayState::new(0);
    assert!(!state.collection_due(NANOS_PER_SECOND - 1));
    assert!(state.collection_due(NANOS_PER_SECOND));
    let action = state.advance_frame(&vec![], &TOGGLE, NANOS_PER_SECOND);
    assert_eq!(action, FrameAction::DrawAndCollect);
    // Asking for a poll does not record one.
    assert_eq!(state.last_refresh, 0);
}

#[test]
fn record_frame_counts_like_the_counter() {
    let mut state = OverlayState::new(0);
    let mut counter = FpsCounter::new(0);
    for now in [10u64, 20, 999_999_999, 1_000_000_000, 1_000_000_001, 2_500_000_000] {
        state.record_frame(now);
        counter.update(now);
        assert_eq!(state.fps_counter, counter);
        assert_eq!(state.current_fps(), counter.current_fps());
    }
    assert!(state.visible);
    assert_eq!(state.last_refresh, 0);
}

#[test]
fn matching_event_hides_and_second_one_shows() {
    let mut state = OverlayState::new(0);
    assert!(state.visible);
    let action = state.advance_frame(&vec![TOGGLE.id], &TOGGLE, 10);
    assert_eq!(action, FrameAction::Sleep);
    assert!(!state.visible);
    let action = state.advance_frame(&vec![TOGGLE.id], &TOGGLE, 20);
    assert_eq!(action, FrameAction::Draw);
    assert!(state.visible);
}

#[test]
fn other_events_never_change_the_visibility() {
    let mut state = OverlayState::new(0);
    for now in 1..50u64 {
        state.advance_frame(&vec![41, 43, 0, u32::MAX], &TOGGLE, now);
        assert!(state.visible);
    }
    state.advance_frame(&vec![TOGGLE.id], &TOGGLE, 50);
    for now in 51..100u64 {
        state.advance_frame(&vec![41, 43, 0, u32::MAX], &TOGGLE, now);
        assert!(!state.visible);
    }
}

#[test]
fn double_firing_in_one_frame_flips_twice() {
    let mut state = OverlayState::new(0);
    let action = state.advance_frame(&vec![TOGGLE.id, TOGGLE.id], &TOGGLE, 5);
    assert_eq!(action, FrameAction::Draw);
    assert!(state.visible);
}

#[test]
fn hidden_frames_count_nothing_and_freeze_the_rate() {
    let mut state = OverlayState::new(0);
    for tick in 1..=60u64 {
        state.advance_frame(&vec![], &TOGGLE, tick * NANOS_PER_SECOND / 60);
    }
    assert_eq!(state.current_fps(), 60);
    state.advance_frame(&vec![TOGGLE.id], &TOGGLE, NANOS_PER_SECOND + 1);
    let frozen = state.fps_counter;
    for second in 2..10u64 {
        let action = state.advance_frame(&vec![], &TOGGLE, second * NANOS_PER_SECOND);
        assert_eq!(action, FrameAction::Sleep);
        assert_eq!(state.fps_counter, frozen);
        assert_eq!(state.current_fps(), 60);
    }
}

#[test]
fn hidden_frames_never_ask_for_a_poll() {
    let mut state = OverlayState::new(0);
    state.advance_frame(&vec![TOGGLE.id], &TOGGLE, 1);
    assert!(!state.visible);
    let mut polls = 0;
    for second in 1..=30u64 {
        let now = second * NANOS_PER_SECOND;
        assert!(state.collection_due(now));
        let action = state.advance_frame(&vec![7, 8], &TOGGLE, now);
        assert_eq!(action, FrameAction::Sleep);
        assert_eq!(action.repaint_after_millis(), 1000);
        if action.should_collect() {
            polls += 1;
        }
        assert_eq!(state.last_refresh, 0);
    }
    assert_eq!(polls, 0);
    // Shown again, the overdue poll is asked for at once.
    let action = state.advance_frame(&vec![TOGGLE.id], &TOGGLE, 31 * NANOS_PER_SECOND);
    assert_eq!(action, FrameAction::DrawAndCollect);
}

#[test]
fn successful_poll_replaces_both_snapshots() {
    let mut state = OverlayState::new(0);
    state.store_collection(fixed_poll(), 1_000_000_123);
    assert_eq!(state.gpu_stats, GpuStats::from_readings(fixed_readings()).unwrap());
    assert_eq!(state.gpu_stats.used_memory_percentage, 25);
    assert_eq!(state.cpu_stats, CpuStats::from_usage(12));
    assert_eq!(state.last_refresh, 1_000_000_123);
    assert!(state.visible);
    assert_eq!(state.fps_counter, FpsCounter::new(0));
}

#[test]
fn failed_poll_keeps_the_last_good_snapshots() {
    let mut state = OverlayState::new(0);
    state.store_collection(fixed_poll(), NANOS_PER_SECOND);
    let gpu = state.gpu_stats.clone();
    let cpu = state.cpu_stats;
    state.store_collection(Err(CollectionError::Temperature), 2 * NANOS_PER_SECOND);
    assert_eq!(state.gpu_stats, gpu);
    assert_eq!(state.cpu_stats, cpu);
    assert_eq!(state.gpu_stats.name, "Fixed GPU");
    assert_eq!(state.gpu_stats.used_memory_percentage, 25);
    assert_eq!(state.last_refresh, 2 * NANOS_PER_SECOND);
}

#[test]
fn failed_first_poll_keeps_the_empty_snapshots() {
    let mut state = OverlayState::new(0);
    state.store_collection(Err(CollectionError::DeviceUnavailable), NANOS_PER_SECOND);
    assert_eq!(state.gpu_stats, GpuStats::empty());
    assert_eq!(state.cpu_stats, CpuStats::empty());
    assert_eq!(state.last_refresh, NANOS_PER_SECOND);
}

#[test]
fn failing_provider_is_retried_once_a_second_not_every_frame() {
    let mut state = OverlayState::new(0);
    let mut polls = 0;
    for tick in 1..=300u64 {
        let now = tick * NANOS_PER_SECOND / 60;
        if state.advance_frame(&vec![], &TOGGLE, now).should_collect() {
            polls += 1;
            state.store_collection(Err(CollectionError::MemoryInfo), now);
        }
    }
    assert_eq!(polls, 5);
    assert_eq!(state.gpu_stats, GpuStats::empty());
}

#[test]
fn every_error_is_absorbed_the_same_way() {
    let errors = [
        CollectionError::DeviceUnavailable,
        CollectionError::MemoryInfo,
        CollectionError::Name,
        CollectionError::Temperature,
        CollectionError::CoreClock,
        CollectionError::MemoryClock,
        CollectionError::FanSpeed,
        CollectionError::PowerUsage,
        CollectionError::ZeroTotalMemory,
    ];
    let mut state = OverlayState::new(0);
    state.store_collection(fixed_poll(), 1);
    let shown = state.clone();
    let mut now = 1;
    for error in errors {
        now += NANOS_PER_SECOND;
        state.store_collection(Err(error), now);
        assert_eq!(state.gpu_stats, shown.gpu_stats);
        assert_eq!(state.cpu_stats, shown.cpu_stats);
        assert_eq!(state.last_refresh, now);
    }
}

#[test]
fn three_seconds_at_sixty_ticks_poll_three_times() {
    let mut state = OverlayState::new(0);
    let mut polls = 0;
    for tick in 1..=180u64 {
        let now = tick * NANOS_PER_SECOND / 60;
        let action = state.advance_frame(&vec![], &TOGGLE, now);
        assert!(action.should_draw());
        assert_eq!(action.repaint_after_millis(), 16);
        assert_eq!(action.should_collect(), tick % 60 == 0);
        if action.should_collect() {
            polls += 1;
            state.store_collection(fixed_poll(), now);
        }
        if tick >= 60 {
            assert_eq!(state.gpu_stats.used_memory_percentage, 25);
            assert_eq!(state.current_fps(), 60);
        }
        if tick % 60 == 0 {
            assert_eq!(state.fps_counter.frames, 0);
            assert_eq!(state.last_refresh, now);
        }
    }
    assert_eq!(polls, 3);
}

#[test]
fn storing_snapshots_leaves_the_refresh_time() {
    let mut state = OverlayState::new(5);
    state.store_snapshots(fixed_poll());
    assert_eq!(state.gpu_stats, GpuStats::from_readings(fixed_readings()).unwrap());
    assert_eq!(state.cpu_stats, CpuStats::from_usage(12));
    assert_eq!(state.last_refresh, 5);
    assert!(state.visible);
    assert_eq!(state.fps_counter, FpsCounter::new(5));
}

#[test]
fn storing_a_failed_poll_changes_nothing() {
    let mut state = OverlayState::new(5);
    state.store_snapshots(fixed_poll());
    let before = state.clone();
    state.store_snapshots(Err(CollectionError::FanSpeed));
    assert_eq!(state, before);
    let mut fresh = OverlayState::new(9);
    fresh.store_snapshots(Err(CollectionError::ZeroTotalMemory));
    assert_eq!(fresh, OverlayState::new(9));
}

#[test]
fn marking_the_refresh_changes_only_its_time() {
    let mut state = OverlayState::new(5);
    state.store_snapshots(fixed_poll());
    let before = state.clone();
    state.mark_refreshed(3 * NANOS_PER_SECOND);
    assert_eq!(state.last_refresh, 3 * NANOS_PER_SECOND);
    assert_eq!(state.gpu_stats, before.gpu_stats);
    assert_eq!(state.cpu_stats, before.cpu_stats);
    assert_eq!(state.visible, before.visible);
    assert_eq!(state.fps_counter, before.fps_counter);
}

#[test]
fn storing_then_marking_is_storing_the_collection() {
    let mut in_steps = OverlayState::new(0);
    in_steps.store_snapshots(fixed_poll());
    in_steps.mark_refreshed(NANOS_PER_SECOND);
    let mut at_once = OverlayState::new(0);
    at_once.store_collection(fixed_poll(), NANOS_PER_SECOND);
    assert_eq!(in_steps, at_once);

    in_steps.store_snapshots(Err(CollectionError::Name));
    in_steps.mark_refreshed(2 * NANOS_PER_SECOND);
    at_once.store_collection(Err(CollectionError::Name), 2 * NANOS_PER_SECOND);
    assert_eq!(in_steps, at_once);
}

#[test]
fn a_poll_that_is_not_marked_is_asked_for_again() {
    let mut state = OverlayState::new(0);
    let action = state.advance_frame(&vec![], &TOGGLE, NANOS_PER_SECOND);
    assert_eq!(action, FrameAction::DrawAndCollect);
    state.store_snapshots(fixed_poll());
    let action = state.advance_frame(&vec![], &TOGGLE, NANOS_PER_SECOND + 1);
    assert_eq!(action, FrameAction::DrawAndCollect);
    state.mark_refreshed(NANOS_PER_SECOND + 1);
    let action = state.advance_frame(&vec![], &TOGGLE, NANOS_PER_SECOND + 2);
    assert_eq!(action, FrameAction::Draw);
}
