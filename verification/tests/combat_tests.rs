use bebeu_engine::entities::character::{CombatParams, Role};
use bebeu_engine::features::character::attack::{
    AttackHitConsumed, HitPoints, HitResult, VictimCandidate, hit_immune, is_attack_hit_active, resolve_hit,
    select_victim,
};
use bebeu_engine::features::character::knockback::{
    Combatant, FinalAction, Landing, advance_guard_break, advance_stage_timer, apex_transition, applies_gravity,
    detect_landing, finish_slide, moves_by_velocity, ms_to_ticks, tick_down_or_anim_finished,
};
use bebeu_engine::features::character::movement::{Facing, total_flip_x};
use bebeu_engine::features::character::state_machine::{CharacterState, end_oneshot};

// ---- state machine ----

#[test]
fn character_state_default_is_idle() {
    assert_eq!(CharacterState::default(), CharacterState::Idle);
}

#[test]
fn character_state_to_role_maps_correctly() {
    assert_eq!(CharacterState::Idle.to_role(), Role::Idle);
    assert_eq!(CharacterState::Walk.to_role(), Role::Walk);
    assert_eq!(CharacterState::Attack.to_role(), Role::Attack);
    assert_eq!(CharacterState::Hit.to_role(), Role::Hit);
}

#[test]
fn character_state_is_locked_for_oneshot_actions() {
    assert!(!CharacterState::Idle.is_locked());
    assert!(!CharacterState::Walk.is_locked());
    assert!(CharacterState::Attack.is_locked());
    assert!(CharacterState::Hit.is_locked());
}

#[test]
fn finished_oneshot_returns_to_idle() {
    assert_eq!(end_oneshot(CharacterState::Attack, true), CharacterState::Idle);
    assert_eq!(end_oneshot(CharacterState::Hit, true), CharacterState::Idle);
    assert_eq!(end_oneshot(CharacterState::Attack, false), CharacterState::Attack);
    assert_eq!(end_oneshot(CharacterState::Walk, true), CharacterState::Walk);
}

// ---- movement ----

#[test]
fn facing_default_is_right() {
    assert_eq!(Facing::default(), Facing::Right);
}

#[test]
fn total_flip_x_xors_facing_and_animation() {
    assert!(!total_flip_x(Facing::Right, false));
    assert!(total_flip_x(Facing::Left, false));
    assert!(total_flip_x(Facing::Right, true));
    assert!(!total_flip_x(Facing::Left, true));
}

// ---- knockback ----

#[test]
fn ms_to_ticks_rounds_up_to_at_least_one() {
    assert_eq!(ms_to_ticks(0), 0);
    assert_eq!(ms_to_ticks(1), 1);
    assert_eq!(ms_to_ticks(16), 1);
    assert_eq!(ms_to_ticks(17), 2);
}

#[test]
fn ms_to_ticks_matches_60hz_rate() {
    assert_eq!(ms_to_ticks(1000), 60);
    assert_eq!(ms_to_ticks(800), 48);
    assert_eq!(ms_to_ticks(300), 18);
}

#[test]
fn ms_to_ticks_never_saturates() {
    assert_eq!(ms_to_ticks(u32::MAX), 257_698_038);
}

#[test]
fn combatant_new_initializes_gauge_to_threshold() {
    let p = CombatParams { knockback_threshold: 120, bounce_count: 2, guard_break_threshold: 80, ..CombatParams::default() };
    let c = Combatant::new(&p);
    assert_eq!(c.gauge, 120);
    assert_eq!(c.gauge_recovery_remaining_ticks, 0);
    assert_eq!(c.stage_timer_ticks, 0);
    assert_eq!(c.remaining_bounces, 2);
    assert_eq!(c.final_action, FinalAction::default());
    assert!(!c.hit_from_behind);
    assert_eq!(c.guard_gauge, 80);
    assert_eq!(c.guard_recovery_remaining_ticks, 0);
}

#[test]
fn combatant_new_saturates_huge_thresholds() {
    let p = CombatParams { knockback_threshold: u32::MAX, ..CombatParams::default() };
    assert_eq!(Combatant::new(&p).gauge, i32::MAX);
}

#[test]
fn final_action_default_is_lie_down() {
    assert_eq!(FinalAction::default(), FinalAction::LieDown);
}

#[test]
fn gauge_refills_when_recovery_countdown_ends() {
    let p = CombatParams::default();
    let mut c = Combatant { gauge: 10, gauge_recovery_remaining_ticks: 3, ..Combatant::new(&p) };
    c.recover_gauge(&p);
    c.recover_gauge(&p);
    assert_eq!((c.gauge, c.gauge_recovery_remaining_ticks), (10, 1));
    c.recover_gauge(&p);
    assert_eq!((c.gauge, c.gauge_recovery_remaining_ticks), (100, 0));
    c.gauge = 5;
    c.recover_gauge(&p);
    assert_eq!(c.gauge, 5, "no countdown, no refill");
}

#[test]
fn guard_gauge_refills_when_recovery_countdown_ends() {
    let p = CombatParams::default();
    let mut c = Combatant { guard_gauge: -4, guard_recovery_remaining_ticks: 1, ..Combatant::new(&p) };
    c.recover_guard_gauge(&p);
    assert_eq!((c.guard_gauge, c.guard_recovery_remaining_ticks), (100, 0));
}

#[test]
fn guard_break_joins_knockback_after_one_tick() {
    assert_eq!(advance_guard_break(CharacterState::GuardBreak), CharacterState::KnockbackUp);
    assert_eq!(advance_guard_break(CharacterState::Guard), CharacterState::Guard);
}

#[test]
fn apex_turns_rising_stages_into_falling_ones() {
    assert_eq!(apex_transition(CharacterState::KnockbackUp, true), CharacterState::KnockbackDown);
    assert_eq!(apex_transition(CharacterState::BounceUp, true), CharacterState::BounceDown);
    assert_eq!(apex_transition(CharacterState::KnockbackUp, false), CharacterState::KnockbackUp);
    assert_eq!(apex_transition(CharacterState::Jump, true), CharacterState::Jump);
}

#[test]
fn gravity_and_velocity_states() {
    assert!(applies_gravity(CharacterState::Jump));
    assert!(!applies_gravity(CharacterState::Slide));
    assert!(moves_by_velocity(CharacterState::Slide));
    assert!(!moves_by_velocity(CharacterState::LieDown));
}

#[test]
fn landing_bounces_while_bounces_remain_then_slides() {
    let p = CombatParams { bounce_count: 1, ..CombatParams::default() };
    let mut c = Combatant::new(&p);
    let mut s = CharacterState::KnockbackDown;
    assert_eq!(detect_landing(&mut s, &mut c, false, true), None);
    assert_eq!(detect_landing(&mut s, &mut c, true, true), Some(Landing::Bounce));
    assert_eq!((s, c.remaining_bounces), (CharacterState::BounceUp, 0));
    s = CharacterState::BounceDown;
    assert_eq!(detect_landing(&mut s, &mut c, true, true), Some(Landing::Slide));
    assert_eq!(s, CharacterState::Slide);
}

#[test]
fn jump_lands_only_while_falling() {
    let mut c = Combatant::new(&CombatParams::default());
    let mut s = CharacterState::JumpAttack;
    assert_eq!(detect_landing(&mut s, &mut c, true, false), None);
    assert_eq!(detect_landing(&mut s, &mut c, true, true), Some(Landing::JumpLanding));
    assert_eq!(s, CharacterState::Idle);
}

#[test]
fn stopped_slide_lies_down_with_timer() {
    let p = CombatParams::default();
    let mut c = Combatant::new(&p);
    let mut s = CharacterState::Slide;
    finish_slide(&mut s, &mut c, &p, false);
    assert_eq!(s, CharacterState::Slide);
    finish_slide(&mut s, &mut c, &p, true);
    assert_eq!((s, c.stage_timer_ticks), (CharacterState::LieDown, 48));
}

#[test]
fn tick_down_reports_stage_end() {
    let mut t = 2;
    assert!(!tick_down_or_anim_finished(&mut t, false));
    assert!(tick_down_or_anim_finished(&mut t, false));
    assert_eq!(t, 0);
    let mut t = 5;
    assert!(tick_down_or_anim_finished(&mut t, true));
    assert_eq!(t, 4);
}

#[test]
fn lie_down_rises_and_rise_resets_combatant() {
    let p = CombatParams::default();
    let mut c = Combatant {
        gauge: -3,
        stage_timer_ticks: 2,
        remaining_bounces: 0,
        hit_from_behind: true,
        juggle_count: 2,
        down_hit_count: 1,
        guard_gauge: 7,
        ..Combatant::new(&p)
    };
    let mut s = CharacterState::LieDown;
    advance_stage_timer(&mut s, &mut c, &p, false);
    assert_eq!((s, c.stage_timer_ticks), (CharacterState::LieDown, 1));
    advance_stage_timer(&mut s, &mut c, &p, false);
    assert_eq!((s, c.stage_timer_ticks), (CharacterState::Rise, 18));
    advance_stage_timer(&mut s, &mut c, &p, true);
    assert_eq!(s, CharacterState::Idle);
    assert_eq!(c.gauge, 100);
    assert_eq!(c.remaining_bounces, 1);
    assert!(!c.hit_from_behind);
    assert_eq!((c.juggle_count, c.down_hit_count), (0, 0));
    assert_eq!(c.guard_gauge, 7, "guard gauge is not part of the reset");
}

#[test]
fn knocked_out_character_stays_down() {
    let p = CombatParams::default();
    let mut c = Combatant { final_action: FinalAction::Dead, stage_timer_ticks: 0, ..Combatant::new(&p) };
    let mut s = CharacterState::LieDown;
    for finished in [false, true, true, false] {
        advance_stage_timer(&mut s, &mut c, &p, finished);
        assert_eq!(s, CharacterState::LieDown);
    }
}

#[test]
fn down_hit_returns_to_lie_down_when_animation_ends() {
    let p = CombatParams::default();
    let mut c = Combatant::new(&p);
    let mut s = CharacterState::DownHit;
    advance_stage_timer(&mut s, &mut c, &p, false);
    assert_eq!(s, CharacterState::DownHit);
    advance_stage_timer(&mut s, &mut c, &p, true);
    assert_eq!((s, c.stage_timer_ticks), (CharacterState::LieDown, 48));
}

// ---- attack ----

#[test]
fn hit_points_new_initializes_full_health() {
    let hp = HitPoints::new(100);
    assert_eq!(hp.current, 100);
    assert_eq!(hp.max, 100);
    assert!(!hp.is_dead());
}

#[test]
fn hit_points_damage_decrements_current() {
    let mut hp = HitPoints::new(100);
    hp.damage(30);
    assert_eq!(hp.current, 70);
}

#[test]
fn hit_points_damage_saturates_at_zero() {
    let mut hp = HitPoints::new(20);
    hp.damage(50);
    assert_eq!(hp.current, 0);
    assert!(hp.is_dead());
}

#[test]
fn attack_hit_is_active_only_in_attack_with_meta() {
    assert!(is_attack_hit_active(CharacterState::Attack, true));
    assert!(!is_attack_hit_active(CharacterState::Attack, false));
    assert!(!is_attack_hit_active(CharacterState::JumpAttack, true));
    assert!(!AttackHitConsumed::default().0);
}

fn combatant_with(gauge: i32) -> Combatant {
    Combatant { gauge, remaining_bounces: 0, ..Combatant::new(&CombatParams::default()) }
}

#[test]
fn decide_hit_returns_no_knockback_when_gauge_remains() {
    let mut c = combatant_with(100);
    assert!(!c.take_knockback_damage(30, false));
    assert_eq!(c.gauge, 70);
}

#[test]
fn decide_hit_triggers_knockback_when_gauge_depleted() {
    let mut c = combatant_with(20);
    assert!(c.take_knockback_damage(30, false));
    assert!(c.gauge <= 0);
}

#[test]
fn decide_hit_triggers_knockback_when_airborne() {
    let mut c = combatant_with(100);
    assert!(c.take_knockback_damage(1, true));
}

#[test]
fn knockback_damage_saturates_gauge() {
    let mut c = combatant_with(i32::MIN + 1);
    assert!(c.take_knockback_damage(5, false));
    assert_eq!(c.gauge, i32::MIN);
}

#[test]
fn plain_hit_arms_gauge_recovery() {
    let p = CombatParams::default();
    let mut hp = HitPoints::new(100);
    let mut c = Combatant::new(&p);
    let r = resolve_hit(&mut hp, &mut c, &p, CharacterState::Idle, 20, 30, false, false);
    assert_eq!(r, Some(HitResult { state: CharacterState::Hit, knockback: false, lethal: false }));
    assert_eq!(hp.current, 80);
    assert_eq!(c.gauge, 70);
    assert_eq!(c.gauge_recovery_remaining_ticks, 90);
}

#[test]
fn depleting_hit_knocks_back_and_resets_gauge() {
    let p = CombatParams { bounce_count: 2, ..CombatParams::default() };
    let mut hp = HitPoints::new(100);
    let mut c = Combatant { gauge: 20, remaining_bounces: 0, ..Combatant::new(&p) };
    let r = resolve_hit(&mut hp, &mut c, &p, CharacterState::Idle, 10, 30, false, true).expect("hit");
    assert_eq!(r.state, CharacterState::KnockbackUp);
    assert!(r.knockback && !r.lethal);
    assert_eq!((c.gauge, c.remaining_bounces, c.final_action, c.hit_from_behind), (100, 2, FinalAction::LieDown, true));
}

#[test]
fn lethal_hit_knocks_out() {
    let p = CombatParams::default();
    let mut hp = HitPoints::new(10);
    let mut c = Combatant::new(&p);
    let r = resolve_hit(&mut hp, &mut c, &p, CharacterState::Idle, 10, 0, false, false).expect("hit");
    assert!(r.lethal && r.knockback);
    assert_eq!(c.final_action, FinalAction::Dead);
    assert!(hp.is_dead());
    let again = resolve_hit(&mut hp, &mut c, &p, CharacterState::Idle, 10, 0, false, false);
    assert!(again.is_none(), "the dead are not hit again");
}

#[test]
fn decide_hit_applies_resistance_to_damage_and_knockback() {
    // With resistance 0.5 the caller scales damage 40 -> 20 and gauge
    // damage 60 -> 30 before the hit is applied.
    let p = CombatParams::default();
    let mut hp = HitPoints::new(100);
    let mut c = Combatant { gauge: 100, ..Combatant::new(&p) };
    let r = resolve_hit(&mut hp, &mut c, &p, CharacterState::Idle, 20, 30, false, false).expect("hit");
    assert_eq!(hp.current, 80);
    assert_eq!(c.gauge, 70);
    assert!(!r.knockback);
}

// ---- juggle and down-hit limits ----

#[test]
fn airborne_hit_beyond_the_juggle_limit_passes_through() {
    let p = CombatParams::default();
    let mut hp = HitPoints::new(100);
    let before = Combatant { juggle_count: p.max_juggle_count + 1, ..Combatant::new(&p) };
    let mut c = before;
    assert!(hit_immune(CharacterState::KnockbackDown, &c, &p, true));
    let r = resolve_hit(&mut hp, &mut c, &p, CharacterState::KnockbackDown, 20, 30, true, false);
    assert_eq!(r, None);
    assert_eq!(hp.current, 100);
    assert_eq!(c, before);
}

#[test]
fn airborne_hit_within_the_juggle_limit_counts_a_juggle() {
    let p = CombatParams::default();
    let mut hp = HitPoints::new(100);
    let mut c = Combatant { juggle_count: p.max_juggle_count, ..Combatant::new(&p) };
    let r = resolve_hit(&mut hp, &mut c, &p, CharacterState::KnockbackDown, 20, 0, true, false).expect("hit");
    assert_eq!(r.state, CharacterState::KnockbackUp);
    assert_eq!(hp.current, 80);
    assert_eq!(c.juggle_count, p.max_juggle_count + 1);
    // the next airborne hit passes through
    assert_eq!(resolve_hit(&mut hp, &mut c, &p, CharacterState::KnockbackUp, 20, 0, true, false), None);
    assert_eq!(hp.current, 80);
}

#[test]
fn hit_on_a_downed_victim_is_a_down_hit() {
    let p = CombatParams::default();
    let mut hp = HitPoints::new(100);
    let mut c = Combatant::new(&p);
    let r = resolve_hit(&mut hp, &mut c, &p, CharacterState::LieDown, 10, 10, false, false).expect("hit");
    assert_eq!(r, HitResult { state: CharacterState::DownHit, knockback: false, lethal: false });
    assert_eq!(c.down_hit_count, 1);
    assert_eq!(c.juggle_count, 0);
    assert_eq!(hp.current, 90);
}

#[test]
fn down_hit_beyond_the_limit_passes_through() {
    let p = CombatParams::default();
    let mut hp = HitPoints::new(100);
    let before = Combatant { down_hit_count: p.max_down_hit_count + 1, ..Combatant::new(&p) };
    let mut c = before;
    assert_eq!(resolve_hit(&mut hp, &mut c, &p, CharacterState::Rise, 10, 10, false, false), None);
    assert_eq!((hp.current, c), (100, before));
    // a standing victim with the same count is hit normally
    let r = resolve_hit(&mut hp, &mut c, &p, CharacterState::Idle, 10, 10, false, false).expect("hit");
    assert_eq!(r.state, CharacterState::Hit);
    assert_eq!(c.down_hit_count, p.max_down_hit_count + 1);
}

// ---- victim selection ----

fn cand(alive: bool, overlaps: bool, immune: bool) -> VictimCandidate {
    VictimCandidate { alive, overlaps, immune }
}

#[test]
fn an_attack_hits_the_first_living_overlapped_victim_once() {
    let vs = [cand(false, true, false), cand(true, false, false), cand(true, true, true), cand(true, true, false), cand(true, true, false)];
    let mut consumed = AttackHitConsumed(false);
    assert_eq!(select_victim(true, &mut consumed, &vs), Some(3));
    assert_eq!(consumed, AttackHitConsumed(true));
    assert_eq!(select_victim(true, &mut consumed, &vs), None);
}

#[test]
fn no_victim_leaves_the_attack_unconsumed() {
    let vs = [cand(true, true, true), cand(false, true, false)];
    let mut consumed = AttackHitConsumed(false);
    assert_eq!(select_victim(true, &mut consumed, &vs), None);
    assert_eq!(consumed, AttackHitConsumed(false));
    assert_eq!(select_victim(false, &mut consumed, &[cand(true, true, false)]), None);
    assert_eq!(consumed, AttackHitConsumed(false));
}
