use perf_overlay::clock::{elapsed_since, FPS_WINDOW, NANOS_PER_SECOND, REFRESH_INTERVAL};
use perf_overlay::fps::FpsCounter;

const START: u64 = 5_000_000_000;

#[test]
fn new_counter_is_empty() {
    assert_eq!(
        FpsCounter::new(START),
        FpsCounter { frames: 0, last_fps_update: START, current_fps: 0 }
    );
    assert_eq!(FpsCounter::new(START).current_fps(), 0);
}

#[test]
fn frames_inside_the_window_are_only_counted() {
    let mut counter = FpsCounter::new(START);
    for i in 1..=30u64 {
        counter.update(START + i * 10_000_000);
        assert_eq!(counter.frames, i as u32);
        assert_eq!(counter.current_fps(), 0);
        assert_eq!(counter.last_fps_update, START);
    }
}

#[test]
fn thirty_frames_of_which_the_last_closes_the_window_report_thirty() {
    let mut counter = FpsCounter::new(START);
    for i in 1..=29u64 {
        counter.update(START + i * 30_000_000);
    }
    assert_eq!(counter.frames, 29);
    let closing = START + NANOS_PER_SECOND + 1234;
    counter.update(closing);
    assert_eq!(counter.current_fps(), 30);
    assert_eq!(counter.frames, 0);
    assert_eq!(counter.last_fps_update, closing);
}

#[test]
fn the_frame_that_closes_the_window_is_counted_in_it() {
    let mut counter = FpsCounter::new(START);
    for i in 1..=30u64 {
        counter.update(START + i * 30_000_000);
    }
    assert_eq!(counter.frames, 30);
    assert_eq!(counter.current_fps(), 0);
    let closing = START + NANOS_PER_SECOND;
    counter.update(closing);
    assert_eq!(counter.current_fps(), 31);
    assert_eq!(counter.frames, 0);
    assert_eq!(counter.last_fps_update, closing);
}

#[test]
fn window_closes_at_exactly_one_second_and_not_before() {
    let mut counter = FpsCounter::new(START);
    counter.update(START + NANOS_PER_SECOND - 1);
    assert_eq!(counter, FpsCounter { frames: 1, last_fps_update: START, current_fps: 0 });
    counter.update(START + NANOS_PER_SECOND);
    assert_eq!(
        counter,
        FpsCounter { frames: 0, last_fps_update: START + NANOS_PER_SECOND, current_fps: 2 }
    );
}

#[test]
fn new_window_starts_at_the_closing_frame_not_at_the_boundary() {
    let mut counter = FpsCounter::new(0);
    // The closing frame comes late: the window has lasted 1.4 s.
    counter.update(1_400_000_000);
    assert_eq!(counter.last_fps_update, 1_400_000_000);
    assert_eq!(counter.current_fps(), 1);
    // 2.3 s is less than a second after 1.4 s: still the same window.
    counter.update(2_300_000_000);
    assert_eq!(counter.current_fps(), 1);
    assert_eq!(counter.frames, 1);
    counter.update(2_400_000_000);
    assert_eq!(counter.current_fps(), 2);
    assert_eq!(counter.frames, 0);
    assert_eq!(counter.last_fps_update, 2_400_000_000);
}

#[test]
fn a_clock_that_goes_back_counts_as_no_time_passed() {
    let mut counter = FpsCounter::new(START);
    counter.update(START - 3_000_000_000);
    assert_eq!(counter, FpsCounter { frames: 1, last_fps_update: START, current_fps: 0 });
    assert_eq!(elapsed_since(START - 1, START), 0);
    assert_eq!(elapsed_since(START, START), 0);
    assert_eq!(elapsed_since(START + 7, START), 7);
    assert_eq!(elapsed_since(u64::MAX, 0), u64::MAX);
}

#[test]
fn tally_stays_at_its_largest_value() {
    let mut counter = FpsCounter { frames: u32::MAX - 1, last_fps_update: START, current_fps: 9 };
    counter.update(START + 1);
    assert_eq!(counter.frames, u32::MAX);
    counter.update(START + 2);
    assert_eq!(counter.frames, u32::MAX);
    assert_eq!(counter.current_fps(), 9);
    counter.update(START + NANOS_PER_SECOND);
    assert_eq!(
        counter,
        FpsCounter {
            frames: 0,
            last_fps_update: START + NANOS_PER_SECOND,
            current_fps: u32::MAX
        }
    );
}

#[test]
fn sixty_frames_a_second_report_sixty_each_second() {
    let mut counter = FpsCounter::new(0);
    for tick in 1..=180u64 {
        counter.update(tick * NANOS_PER_SECOND / 60);
        if tick % 60 == 0 {
            assert_eq!(counter.current_fps(), 60);
            assert_eq!(counter.frames, 0);
            assert_eq!(counter.last_fps_update, tick / 60 * NANOS_PER_SECOND);
        }
    }
}

#[test]
fn cadences_are_one_second() {
    assert_eq!(NANOS_PER_SECOND, 1_000_000_000);
    assert_eq!(FPS_WINDOW, 1_000_000_000);
    assert_eq!(REFRESH_INTERVAL, 1_000_000_000);
}
