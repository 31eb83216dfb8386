use bebeu_engine::features::character::animation::{AnimationFrames, TimedFrame, duration_to_ticks, frame_duration_nanos};

const MS: u128 = 1_000_000;
const US: u128 = 1_000;

fn dummy_frame(ms: u128) -> TimedFrame<u8> {
    TimedFrame { duration_nanos: ms * MS, render: 0 }
}

fn frames_of(n: usize, ms: u128) -> Vec<TimedFrame<u8>> {
    (0..n).map(|_| dummy_frame(ms)).collect()
}

#[test]
fn next_index_advances_within_range() {
    let frames = AnimationFrames::new(frames_of(3, 100), true, 0);
    assert_eq!(frames.next_index(), 1);
}

#[test]
fn next_index_loops_to_loop_start() {
    let mut frames = AnimationFrames::new(frames_of(3, 100), true, 1);
    frames.current = 2;
    assert_eq!(frames.next_index(), 1);
}

#[test]
fn next_index_stops_at_end_when_not_loop() {
    let mut frames = AnimationFrames::new(frames_of(3, 100), false, 0);
    frames.current = 2;
    assert_eq!(frames.next_index(), 2);
}

#[test]
fn is_finished_false_for_loop() {
    let frames = AnimationFrames::new(frames_of(2, 100), true, 0);
    assert!(!frames.is_finished());
}

#[test]
fn is_finished_false_before_last_frame_completes() {
    let mut frames = AnimationFrames::new(frames_of(2, 100), false, 0);
    frames.current = 1;
    assert!(!frames.is_finished());
}

#[test]
fn is_finished_true_when_last_frame_timer_done() {
    let mut frames = AnimationFrames::new(frames_of(2, 100), false, 0);
    frames.current = 1;
    frames.elapsed_in_frame = 200 * MS;
    assert!(frames.is_finished());
}

#[test]
fn is_finished_false_for_empty_frames() {
    let frames: AnimationFrames<u8> = AnimationFrames::new(vec![], false, 0);
    assert!(!frames.is_finished());
}

#[test]
fn current_index_starts_at_zero_and_reflects_advance() {
    let mut frames = AnimationFrames::new(frames_of(3, 100), true, 0);
    assert_eq!(frames.current_index(), 0);
    frames.current = 2;
    assert_eq!(frames.current_index(), 2);
}

#[test]
fn advance_carries_overshoot_into_next_frame() {
    let mut frames = AnimationFrames::new(frames_of(3, 100), true, 0);
    assert!(frames.advance(130 * MS));
    assert_eq!(frames.current, 1);
    assert_eq!(frames.elapsed_in_frame, 30 * MS);
}

#[test]
fn total_elapsed_accumulates_across_frame_transitions() {
    let mut frames = AnimationFrames::new(frames_of(3, 100), true, 0);
    frames.advance(130 * MS);
    assert_eq!(frames.total_elapsed, 130 * MS);
    frames.advance(50 * MS);
    assert_eq!(frames.total_elapsed, 180 * MS);
}

#[test]
fn current_frame_elapsed_ticks_floors_to_full_ticks() {
    let mut frames = AnimationFrames::new(frames_of(1, 200), false, 0);
    frames.advance(25 * MS);
    assert_eq!(frames.current_frame_elapsed_ticks(), 1);
}

#[test]
fn current_frame_total_ticks_uses_frame_duration() {
    let frames = AnimationFrames::new(frames_of(1, 120), false, 0);
    assert_eq!(frames.current_frame_total_ticks(), 7);
    assert_eq!(frames.current_frame_elapsed_ticks(), 0);
}

#[test]
fn total_elapsed_ticks_reflects_anim_lifetime() {
    let mut frames = AnimationFrames::new(frames_of(2, 100), true, 0);
    frames.advance(50 * MS);
    assert_eq!(frames.total_elapsed_ticks(), 2);
    frames.advance(100 * MS);
    assert_eq!(frames.total_elapsed_ticks(), 8);
}

#[test]
fn frame_count_returns_total_frames() {
    let frames = AnimationFrames::new(frames_of(5, 100), false, 0);
    assert_eq!(frames.frame_count(), 5);
    let empty: AnimationFrames<u8> = AnimationFrames::new(vec![], false, 0);
    assert_eq!(empty.frame_count(), 0);
}

#[test]
fn duration_to_ticks_floors() {
    assert_eq!(duration_to_ticks(0), 0);
    assert_eq!(duration_to_ticks(16_666 * US), 0);
    assert_eq!(duration_to_ticks(16_667 * US), 1);
    assert_eq!(duration_to_ticks(33_334 * US), 2);
}

#[test]
fn advance_consumes_multiple_frames_when_delta_large() {
    let mut frames = AnimationFrames::new(frames_of(4, 100), true, 0);
    assert!(frames.advance(250 * MS));
    assert_eq!(frames.current, 2);
    assert_eq!(frames.elapsed_in_frame, 50 * MS);
}

#[test]
fn advance_average_frame_time_converges_to_duration_under_jitter() {
    let mut frames = AnimationFrames::new(frames_of(6, 120), true, 0);
    let total_us: u128 = 6 * 120_000;
    let tick_us: u128 = 16_667;
    let mut consumed: u128 = 0;
    while consumed + tick_us <= total_us {
        frames.advance(tick_us * US);
        consumed += tick_us;
    }
    frames.advance((total_us - consumed) * US);
    assert_eq!(frames.current, 0);
    assert!(frames.elapsed_in_frame < MS);
}

#[test]
fn current_frame_sound_returns_frame_value() {
    let f0 = TimedFrame { duration_nanos: 100 * MS, render: Some(3u32) };
    let f1 = TimedFrame { duration_nanos: 100 * MS, render: None };
    let mut frames = AnimationFrames::new(vec![f0, f1], false, 0);
    assert_eq!(frames.current_frame().and_then(|f| f.render), Some(3));
    frames.current = 1;
    assert!(frames.current_frame().and_then(|f| f.render).is_none());
}

#[test]
fn current_frame_sound_empty_frames_returns_none() {
    let frames: AnimationFrames<Option<u32>> = AnimationFrames::new(vec![], false, 0);
    assert!(frames.current_frame().is_none());
}

#[test]
fn non_looping_animation_stops_on_last_frame_with_clamped_time() {
    let mut frames = AnimationFrames::new(frames_of(2, 100), false, 0);
    assert!(frames.advance(350 * MS));
    assert_eq!(frames.current, 1);
    assert_eq!(frames.elapsed_in_frame, 100 * MS);
    assert!(frames.is_finished());
    assert!(!frames.advance(10 * MS));
    assert_eq!(frames.total_elapsed, 360 * MS);
}

#[test]
fn frame_duration_counts_zero_ticks_as_one() {
    assert_eq!(frame_duration_nanos(0), 16_667_000);
    assert_eq!(frame_duration_nanos(1), 16_667_000);
    assert_eq!(frame_duration_nanos(6), 100_002_000);
}

#[test]
fn first_frame_duration_is_whole_milliseconds() {
    let frames = AnimationFrames::new(frames_of(2, 120), false, 0);
    assert_eq!(frames.first_frame_duration_ms(), Some(120));
    let empty: AnimationFrames<u8> = AnimationFrames::new(vec![], false, 0);
    assert_eq!(empty.first_frame_duration_ms(), None);
}
