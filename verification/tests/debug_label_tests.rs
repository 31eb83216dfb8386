use bebeu_engine::entities::character::CombatParams;
use bebeu_engine::features::character::animation::{AnimationFrames, TimedFrame};
use bebeu_engine::features::character::attack::HitPoints;
use bebeu_engine::features::character::knockback::{Combatant, FinalAction};
use bebeu_engine::features::character::state_debug::{append_dec, append_signed_dec, format_label};
use bebeu_engine::features::character::state_machine::CharacterState;

fn dummy_anim() -> AnimationFrames<()> {
    AnimationFrames::new(vec![], false, 0)
}

fn dummy_params() -> CombatParams {
    CombatParams { knockback_threshold: 100, bounce_count: 2, ..CombatParams::default() }
}

fn dummy_combatant() -> Combatant {
    Combatant { gauge: 80, remaining_bounces: 2, ..Combatant::new(&dummy_params()) }
}

fn frame(ms: u128) -> TimedFrame<()> {
    TimedFrame { duration_nanos: ms * 1_000_000, render: () }
}

#[test]
fn format_label_includes_all_fields() {
    let hp = HitPoints { current: 30, max: 60 };
    let s = format_label(CharacterState::KnockbackUp, &dummy_anim(), &dummy_combatant(), &dummy_params(), Some(hp));
    assert!(s.contains("KnockbackUp"), "state: {s}");
    assert!(s.contains("t=0"), "state elapsed: {s}");
    assert!(s.contains("f=0/0"), "frame: {s}");
    assert!(s.contains("HP=30/60"), "hp: {s}");
    assert!(s.contains("G=80/100"), "gauge: {s}");
    assert!(s.contains("B=2/2"), "bounces: {s}");
    assert!(s.contains("FA=LieDown"), "final_action: {s}");
    assert!(s.contains("HFB=false"), "hit_from_behind: {s}");
}

#[test]
fn format_label_frame_index_is_one_indexed() {
    let anim = AnimationFrames::new((0..5).map(|_| frame(100)).collect(), false, 0);
    let s = format_label(CharacterState::Idle, &anim, &dummy_combatant(), &dummy_params(), None);
    assert!(s.contains("f=1/5"), "expected 1-indexed frame: {s}");
}

#[test]
fn format_label_frame_tick_is_one_indexed_at_start() {
    let anim = AnimationFrames::new(vec![frame(100)], false, 0);
    let s = format_label(CharacterState::Idle, &anim, &dummy_combatant(), &dummy_params(), None);
    assert!(s.contains("1/5"), "expected 1/5 at start: {s}");
}

#[test]
fn format_label_marks_dead_and_back_when_set() {
    let mut combatant = dummy_combatant();
    combatant.final_action = FinalAction::Dead;
    combatant.hit_from_behind = true;
    combatant.gauge = -5;
    combatant.remaining_bounces = 0;
    let s = format_label(CharacterState::LieDown, &dummy_anim(), &combatant, &dummy_params(), None);
    assert!(s.contains("FA=Dead"));
    assert!(s.contains("HFB=true"));
    assert!(s.contains("G=-5/"));
    assert!(s.contains("HP=-"), "HP should show '-' when None: {s}");
}

#[test]
fn format_label_full_text() {
    let mut anim = AnimationFrames::new(vec![frame(100), frame(100)], false, 0);
    anim.advance(250 * 1_000_000);
    let s = format_label(CharacterState::Attack, &anim, &dummy_combatant(), &dummy_params(), Some(HitPoints { current: 7, max: 9 }));
    assert_eq!(s, "Attack(Attack) t=14\nf=2/2 5/5\nHP=7/9\nG=80/100\nB=2/2 FA=LieDown\nHFB=false");
}

#[test]
fn decimal_rendering() {
    let mut s = String::new();
    append_dec(&mut s, 0);
    s.push(' ');
    append_dec(&mut s, 1_234_567_890);
    s.push(' ');
    append_signed_dec(&mut s, i64::MIN);
    s.push(' ');
    append_signed_dec(&mut s, -42);
    assert_eq!(s, "0 1234567890 -9223372036854775808 -42");
}
