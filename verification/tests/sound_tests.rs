use bebeu_engine::entities::character::FrameSound;
use bebeu_engine::features::character::sound::{
    AttackOutcome, PendingSound, SoundDispatch, select_frame_sound_number, step_dispatch,
};

fn fs(number: u32, delay_ms: u32) -> FrameSound {
    FrameSound { number: Some(number), on_hit: None, on_guard: None, delay_ms }
}

fn fs_full(number: Option<u32>, on_hit: Option<u32>, on_guard: Option<u32>, delay_ms: u32) -> FrameSound {
    FrameSound { number, on_hit, on_guard, delay_ms }
}

#[test]
fn sound_dispatch_default_has_no_pending_and_no_prev() {
    let s = SoundDispatch::default();
    assert!(s.pending.is_none());
    assert!(s.prev_frame_index.is_none());
}

#[test]
fn attack_outcome_default_is_idle() {
    assert_eq!(AttackOutcome::default(), AttackOutcome::Idle);
}

#[test]
fn step_dispatch_spawn_state_does_not_fire_idle_frame_0() {
    let mut d = SoundDispatch { prev_frame_index: Some(0), pending: None };
    let n = step_dispatch(0, Some(fs(7, 0)), AttackOutcome::Idle, &mut d);
    assert!(n.is_none());
    assert!(d.pending.is_none());
}

#[test]
fn step_dispatch_switch_state_fires_new_anim_frame_0() {
    let mut d = SoundDispatch { prev_frame_index: None, pending: None };
    let n = step_dispatch(0, Some(fs(7, 0)), AttackOutcome::Idle, &mut d);
    assert_eq!(n, Some(7));
    assert_eq!(d.prev_frame_index, Some(0));
    assert!(d.pending.is_none());
}

#[test]
fn step_dispatch_frame_transition_latches_new_sound() {
    let mut d = SoundDispatch { prev_frame_index: Some(0), pending: None };
    let n = step_dispatch(1, Some(fs(5, 0)), AttackOutcome::Idle, &mut d);
    assert_eq!(n, Some(5));
    assert_eq!(d.prev_frame_index, Some(1));
}

#[test]
fn step_dispatch_delay_consumed_over_multiple_ticks() {
    let mut d = SoundDispatch { prev_frame_index: Some(0), pending: None };
    assert_eq!(step_dispatch(1, Some(fs(2, 50)), AttackOutcome::Idle, &mut d), None);
    assert_eq!(step_dispatch(1, None, AttackOutcome::Idle, &mut d), None);
    assert!(d.pending.is_some());
    assert_eq!(step_dispatch(1, None, AttackOutcome::Idle, &mut d), Some(2));
    assert!(d.pending.is_none());
}

#[test]
fn step_dispatch_no_sound_means_no_latch_no_fire() {
    let mut d = SoundDispatch { prev_frame_index: Some(0), pending: None };
    assert_eq!(step_dispatch(1, None, AttackOutcome::Idle, &mut d), None);
    assert!(d.pending.is_none());
    assert_eq!(d.prev_frame_index, Some(1));
}

#[test]
fn step_dispatch_new_frame_with_sound_overrides_old_pending() {
    let mut d = SoundDispatch {
        prev_frame_index: Some(0),
        pending: Some(PendingSound { number: 99, remaining_delay_nanos: 100_000_000 }),
    };
    assert_eq!(step_dispatch(1, Some(fs(2, 50)), AttackOutcome::Idle, &mut d), None);
    let pending = d.pending.as_ref().expect("new pending should latch");
    assert_eq!(pending.number, 2);
    assert_eq!(pending.remaining_delay_nanos, 33_333_000);
}

#[test]
fn step_dispatch_loop_back_to_frame_0_refires() {
    let mut d = SoundDispatch { prev_frame_index: Some(2), pending: None };
    let n = step_dispatch(0, Some(fs(1, 0)), AttackOutcome::Idle, &mut d);
    assert_eq!(n, Some(1));
}

#[test]
fn select_frame_sound_number_idle_picks_swing() {
    let fs = fs_full(Some(1), Some(2), Some(3), 0);
    assert_eq!(select_frame_sound_number(&fs, AttackOutcome::Idle), Some(1));
}

#[test]
fn select_frame_sound_number_hit_prefers_on_hit() {
    let fs = fs_full(Some(1), Some(2), Some(3), 0);
    assert_eq!(select_frame_sound_number(&fs, AttackOutcome::Hit), Some(2));
}

#[test]
fn select_frame_sound_number_hit_falls_back_to_number_if_on_hit_none() {
    let fs = fs_full(Some(1), None, Some(3), 0);
    assert_eq!(select_frame_sound_number(&fs, AttackOutcome::Hit), Some(1));
}

#[test]
fn select_frame_sound_number_guarded_prefers_on_guard() {
    let fs = fs_full(Some(1), Some(2), Some(3), 0);
    assert_eq!(select_frame_sound_number(&fs, AttackOutcome::Guarded), Some(3));
}

#[test]
fn select_frame_sound_number_guarded_falls_back_to_number() {
    let fs = fs_full(Some(1), Some(2), None, 0);
    assert_eq!(select_frame_sound_number(&fs, AttackOutcome::Guarded), Some(1));
}

#[test]
fn select_frame_sound_number_returns_none_when_only_relevant_field_missing() {
    let f = fs_full(Some(5), None, None, 0);
    assert_eq!(select_frame_sound_number(&f, AttackOutcome::Hit), Some(5));
    let f = fs_full(None, Some(6), None, 0);
    assert_eq!(select_frame_sound_number(&f, AttackOutcome::Idle), None);
}

#[test]
fn step_dispatch_hit_outcome_picks_on_hit_at_frame_entry() {
    let mut d = SoundDispatch { prev_frame_index: Some(2), pending: None };
    let f = fs_full(None, Some(7), Some(8), 0);
    assert_eq!(step_dispatch(3, Some(f), AttackOutcome::Hit, &mut d), Some(7));
}

#[test]
fn step_dispatch_guarded_outcome_picks_on_guard_at_frame_entry() {
    let mut d = SoundDispatch { prev_frame_index: Some(2), pending: None };
    let f = fs_full(None, Some(7), Some(8), 0);
    assert_eq!(step_dispatch(3, Some(f), AttackOutcome::Guarded, &mut d), Some(8));
}

#[test]
fn step_dispatch_idle_on_hit_only_frame_does_not_fire() {
    let mut d = SoundDispatch { prev_frame_index: Some(2), pending: None };
    let f = fs_full(None, Some(7), Some(8), 0);
    let n = step_dispatch(3, Some(f), AttackOutcome::Idle, &mut d);
    assert!(n.is_none());
    assert_eq!(d.prev_frame_index, Some(3));
    assert!(d.pending.is_none());
}

#[test]
fn step_dispatch_swing_only_frame_with_hit_outcome_uses_swing() {
    let mut d = SoundDispatch { prev_frame_index: None, pending: None };
    let f = fs_full(Some(1), None, None, 0);
    let n = step_dispatch(0, Some(f), AttackOutcome::Hit, &mut d);
    assert_eq!(n, Some(1));
}

#[test]
fn resets_on_spawn_and_switch() {
    let mut d = SoundDispatch { prev_frame_index: Some(4), pending: Some(PendingSound { number: 1, remaining_delay_nanos: 5 }) };
    d.reset_for_spawn();
    assert_eq!(d, SoundDispatch { prev_frame_index: Some(0), pending: None });
    d.reset_for_switch();
    assert_eq!(d, SoundDispatch { prev_frame_index: None, pending: None });
}

#[test]
fn delay_fires_after_ceil_of_delay_over_tick() {
    // 100 ms / 16.667 ms = 5.99... -> the sixth tick, counting the entry tick.
    let mut d = SoundDispatch::default();
    let mut fired_at = None;
    for tick in 1..=10 {
        let f = if tick == 1 { Some(fs(9, 100)) } else { None };
        if let Some(n) = step_dispatch(0, f, AttackOutcome::Idle, &mut d) {
            assert_eq!(n, 9);
            fired_at = Some(tick);
            break;
        }
    }
    assert_eq!(fired_at, Some(6));
}
