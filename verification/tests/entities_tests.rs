use bebeu_engine::entities::character::{
    AttackBox, AttackBoxOverride, CombatParams, FrameSound, HitBox, Role, TargetSelector, default_depth, default_hp,
    offset_xy, resolve_attack_box, resolve_body_boxes,
};
use bebeu_engine::entities::level::{Area, OpponentTrigger, areas_or_default, default_areas, default_base, next_triggered_index, take_next_trigger};
use bebeu_engine::entities::character::name_or_default;
use bebeu_engine::entities::project::{EnemyTarget, HexColor, Resolution};
use bebeu_engine::features::character::movement::Side;
use bebeu_engine::features::hud::{EnemyCandidate, icon_hp_dropped, icon_sprite_index, resolve_enemy_target};
use bebeu_engine::features::character::state_machine::CharacterState;
use bebeu_engine::shared::player_id::PlayerId;

// ---- project ----

#[test]
fn resolution_default_matches_engine_default() {
    let r = Resolution::default();
    assert_eq!(r.width, 384);
    assert_eq!(r.height, 216);
}

#[test]
fn hex_color_parses_rgb_and_rgba() {
    assert_eq!(HexColor::parse("#ff8800").expect("parses"), HexColor { r: 0xff, g: 0x88, b: 0x00, a: 255 });
    assert_eq!(HexColor::parse("#ff880080").expect("parses"), HexColor { r: 0xff, g: 0x88, b: 0x00, a: 0x80 });
}

#[test]
fn hex_color_rejects_bad_input() {
    assert!(HexColor::parse("ff8800").is_err());
    assert!(HexColor::parse("#fff").is_err());
    assert!(HexColor::parse("#zzzzzz").is_err());
}

#[test]
fn hex_color_to_string_omits_alpha_when_opaque() {
    let c = HexColor { r: 0xff, g: 0x88, b: 0x00, a: 255 };
    assert_eq!(c.to_hex_string(), "#ff8800");
    let c = HexColor { r: 0xff, g: 0x88, b: 0x00, a: 0x80 };
    assert_eq!(c.to_hex_string(), "#ff880080");
}

#[test]
fn hex_color_error_messages_name_the_problem() {
    assert_eq!(HexColor::parse("  ff8800 ").unwrap_err(), "color must start with '#': ff8800");
    assert_eq!(HexColor::parse("#fff").unwrap_err(), "color must be #RRGGBB or #RRGGBBAA: #fff");
    assert_eq!(HexColor::parse("#zzzzzz").unwrap_err(), "invalid hex digit: invalid digit found in string");
}

#[test]
fn hex_color_parse_trims_and_accepts_upper_case() {
    assert_eq!(HexColor::parse("  #FFA0B1 ").expect("parses"), HexColor { r: 0xff, g: 0xa0, b: 0xb1, a: 255 });
}

#[test]
fn hex_color_round_trips_through_text() {
    for c in [HexColor { r: 1, g: 2, b: 3, a: 255 }, HexColor { r: 0, g: 0xab, b: 0xcd, a: 0 }] {
        assert_eq!(HexColor::parse(&c.to_hex_string()).expect("parses"), c);
    }
}

// ---- level ----

#[test]
fn area_default_preserves_near_z_ge_far_z_invariant() {
    let a = Area::default();
    assert!(a.near_z >= a.far_z, "near_z must be >= far_z");
}

#[test]
fn default_areas_is_single_area_with_default() {
    let areas = default_areas();
    assert_eq!(areas.len(), 1);
    assert_eq!(areas[0], Area::default());
}

#[test]
fn area_default_is_the_640_by_80_rectangle() {
    let a = Area::default();
    assert_eq!((a.near_z, a.far_z), (80, 0));
    assert_eq!((a.near_min_x, a.near_max_x, a.far_min_x, a.far_max_x), (0, 640, 0, 640));
}

#[test]
fn default_base_is_base_png() {
    assert_eq!(default_base(), "base.png");
}

fn trig(trigger_x: i32) -> OpponentTrigger {
    OpponentTrigger { character_name: "enemy".into(), trigger_x, spawn_x: 0, spawn_y: 0, spawn_z: 0 }
}

#[test]
fn next_triggered_index_returns_none_when_player_behind_all() {
    let triggers = vec![trig(100), trig(200)];
    assert!(next_triggered_index(&triggers, 50).is_none());
}

#[test]
fn next_triggered_index_returns_first_in_order() {
    let triggers = vec![trig(100), trig(200)];
    assert_eq!(next_triggered_index(&triggers, 300), Some(0));
}

#[test]
fn next_triggered_index_skips_unreached_until_threshold() {
    let triggers = vec![trig(500), trig(150)];
    assert_eq!(next_triggered_index(&triggers, 200), Some(1));
}

#[test]
fn next_triggered_index_inclusive_on_boundary() {
    let triggers = vec![trig(200)];
    assert_eq!(next_triggered_index(&triggers, 200), Some(0));
}

#[test]
fn take_next_trigger_fires_each_trigger_once() {
    let mut triggers = vec![trig(500), trig(150), trig(160)];
    let first = take_next_trigger(&mut triggers, 200).expect("fires");
    assert_eq!(first.trigger_x, 150);
    assert_eq!(triggers, vec![trig(500), trig(160)]);
    let second = take_next_trigger(&mut triggers, 200).expect("fires");
    assert_eq!(second.trigger_x, 160);
    assert!(take_next_trigger(&mut triggers, 200).is_none());
    assert_eq!(triggers, vec![trig(500)]);
}

#[test]
fn opponent_trigger_default_is_empty() {
    let t = OpponentTrigger::default();
    assert!(t.character_name.is_empty());
    assert_eq!((t.trigger_x, t.spawn_x, t.spawn_y, t.spawn_z), (0, 0, 0, 0));
}

// ---- character ----

#[test]
fn target_selector_default_is_nearest() {
    assert_eq!(TargetSelector::default(), TargetSelector::Nearest);
}

#[test]
fn role_default_is_custom_and_loadable_excludes_it() {
    assert_eq!(Role::default(), Role::Custom);
    let all = Role::all_loadable();
    assert_eq!(all.len(), 36);
    assert_eq!(all[0], Role::Idle);
    assert_eq!(all[35], Role::DownAttack);
    assert!(!all.contains(&Role::Custom));
}

#[test]
fn character_defaults_match_engine_constants() {
    assert_eq!(default_hp(), 100);
    assert_eq!(default_depth(), 16);
    let p = CombatParams::default();
    assert_eq!(p.knockback_threshold, 100);
    assert_eq!(p.bounce_count, 1);
    assert_eq!(p.hit_recovery_ms, 1500);
    assert_eq!(p.lie_down_duration_ms, 800);
    assert_eq!(p.rise_duration_ms, 300);
    assert_eq!(p.max_juggle_count, 3);
    assert_eq!(p.max_down_hit_count, 3);
    assert_eq!(p.guard_break_threshold, 100);
    assert_eq!(p.guard_recovery_ms, 1200);
}

#[test]
fn frame_pivot_offset_xy_none_returns_zero() {
    assert_eq!(offset_xy(None), (0, 0));
}

#[test]
fn frame_pivot_offset_xy_some_returns_values() {
    assert_eq!(offset_xy(Some([3, -4])), (3, -4));
}

#[test]
fn frame_sound_default_is_silent() {
    let fs = FrameSound::default();
    assert_eq!(fs, FrameSound { number: None, on_hit: None, on_guard: None, delay_ms: 0 });
}

fn hb(br: [i32; 2]) -> HitBox {
    HitBox { top_left: [0, 0], bottom_right: br, depth: None }
}

/// An attack box whose effect data is its damage.
fn ab(damage: u32) -> AttackBox<u32> {
    AttackBox { hitbox: hb([10, 10]), meta: Some(damage) }
}

fn ab_override(damage: u32) -> AttackBoxOverride<u32> {
    AttackBoxOverride { hitbox: Some(hb([10, 10])), meta: Some(damage) }
}

fn damage_of(overrides: Option<&[AttackBoxOverride<u32>]>, sprite: Option<&[AttackBox<u32>]>) -> Option<u32> {
    resolve_attack_box(overrides, sprite).and_then(|b| b.meta)
}

fn geom_of(overrides: Option<&[AttackBoxOverride<u32>]>, sprite: Option<&[AttackBox<u32>]>) -> Option<HitBox> {
    resolve_attack_box(overrides, sprite).map(|b| b.hitbox)
}

#[test]
fn extract_attack_damage_inherits_from_sprite_when_no_override() {
    let sprite = vec![ab(30)];
    assert_eq!(damage_of(None, Some(&sprite)), Some(30));
}

#[test]
fn extract_attack_damage_disabled_when_override_empty_vec() {
    let sprite = vec![ab(30)];
    let ov: Vec<AttackBoxOverride<u32>> = vec![];
    assert!(damage_of(Some(&ov), Some(&sprite)).is_none());
}

#[test]
fn extract_attack_damage_overrides_sprite_when_non_empty() {
    let sprite = vec![ab(30)];
    let ov = vec![ab_override(40)];
    assert_eq!(damage_of(Some(&ov), Some(&sprite)), Some(40));
}

#[test]
fn extract_attack_damage_none_when_neither_sprite_nor_override() {
    assert!(damage_of(None, None).is_none());
}

#[test]
fn extract_attack_box_geom_inherits_from_sprite() {
    let sprite = vec![ab(30)];
    let geom = geom_of(None, Some(&sprite)).expect("inherited");
    assert_eq!(geom.bottom_right, [10, 10]);
}

#[test]
fn partial_override_meta_only_inherits_hitbox_from_sprite() {
    let sprite = vec![ab(30)];
    let ov = vec![AttackBoxOverride { hitbox: None, meta: Some(99) }];
    assert_eq!(damage_of(Some(&ov), Some(&sprite)), Some(99));
    let geom = geom_of(Some(&ov), Some(&sprite)).expect("hitbox should be inherited");
    assert_eq!(geom.bottom_right, [10, 10]);
}

#[test]
fn partial_override_hitbox_only_inherits_meta_from_sprite() {
    let alt = HitBox { top_left: [50, 50], bottom_right: [80, 80], depth: None };
    let sprite = vec![ab(30)];
    let ov = vec![AttackBoxOverride { hitbox: Some(alt), meta: None }];
    let geom = geom_of(Some(&ov), Some(&sprite)).expect("hitbox should be overridden");
    assert_eq!(geom.bottom_right, alt.bottom_right);
    assert_eq!(damage_of(Some(&ov), Some(&sprite)), Some(30));
}

#[test]
fn partial_override_both_none_inherits_everything_from_sprite() {
    let sprite = vec![ab(30)];
    let ov: Vec<AttackBoxOverride<u32>> = vec![AttackBoxOverride { hitbox: None, meta: None }];
    assert_eq!(damage_of(Some(&ov), Some(&sprite)), Some(30));
    let geom = geom_of(Some(&ov), Some(&sprite)).expect("inherited");
    assert_eq!(geom.bottom_right, [10, 10]);
}

#[test]
fn partial_override_hitbox_only_without_sprite_yields_no_meta() {
    let ov = vec![AttackBoxOverride { hitbox: Some(hb([5, 5])), meta: None }];
    assert!(damage_of(Some(&ov), None).is_none());
    assert!(geom_of(Some(&ov), None).is_some());
}

#[test]
fn partial_override_meta_only_without_sprite_yields_no_box() {
    let ov = vec![AttackBoxOverride { hitbox: None, meta: Some(50) }];
    assert!(geom_of(Some(&ov), None).is_none());
    assert!(damage_of(Some(&ov), None).is_none());
}

fn body_hb() -> HitBox {
    HitBox { top_left: [14, 18], bottom_right: [34, 60], depth: Some(16) }
}

#[test]
fn extract_body_box_geoms_inherits_from_sprite_when_no_override() {
    let sprite = vec![body_hb()];
    assert_eq!(resolve_body_boxes(None, Some(&sprite)).to_vec(), vec![body_hb()]);
}

#[test]
fn extract_body_box_geoms_disabled_when_override_empty_vec() {
    let sprite = vec![body_hb()];
    let ov: Vec<HitBox> = vec![];
    assert!(resolve_body_boxes(Some(&ov), Some(&sprite)).is_empty());
}

#[test]
fn extract_body_box_geoms_overrides_sprite_when_non_empty() {
    let alt = hb([5, 5]);
    let sprite = vec![body_hb()];
    let ov = vec![alt];
    assert_eq!(resolve_body_boxes(Some(&ov), Some(&sprite)).to_vec(), vec![alt]);
}

#[test]
fn extract_body_box_geoms_empty_when_neither_sprite_nor_override() {
    assert!(resolve_body_boxes(None, None).is_empty());
}

#[test]
fn character_missing_name_falls_back_to_provided_arg() {
    assert_eq!(name_or_default(String::new(), "MooR_01"), "MooR_01");
    assert_eq!(name_or_default("Moo".to_string(), "MooR_01"), "Moo");
}


#[test]
fn enemy_target_resolves_among_villains_only() {
    let cands = vec![
        EnemyCandidate { entity: 1, tag: Some("boss".into()), side: Side::Hero },
        EnemyCandidate { entity: 2, tag: None, side: Side::Villain },
        EnemyCandidate { entity: 3, tag: Some("boss".into()), side: Side::Villain },
    ];
    assert_eq!(resolve_enemy_target(&EnemyTarget::Tag("boss".into()), &cands, None), Some(2));
    assert_eq!(resolve_enemy_target(&EnemyTarget::NthEnemy(0), &cands, None), Some(1));
    assert_eq!(resolve_enemy_target(&EnemyTarget::NthEnemy(1), &cands, None), Some(2));
    assert_eq!(resolve_enemy_target(&EnemyTarget::NthEnemy(2), &cands, None), None);
    assert_eq!(resolve_enemy_target(&EnemyTarget::LastEngagedBy(PlayerId::P1), &cands, Some(3)), Some(2));
    assert_eq!(resolve_enemy_target(&EnemyTarget::LastEngagedBy(PlayerId::P1), &cands, Some(1)), None);
    assert_eq!(resolve_enemy_target(&EnemyTarget::LastEngagedBy(PlayerId::P1), &cands, None), None);
}

#[test]
fn layer_pivot_offset_xy_none_returns_zero() {
    assert_eq!(offset_xy(None), (0, 0));
}

#[test]
fn animation_default_role_is_custom() {
    assert_eq!(Role::default(), Role::Custom);
}

#[test]
fn physics_default_matches_engine_constants() {
    let p = CombatParams::default();
    assert_eq!(p.knockback_threshold, bebeu_engine::entities::character::DEFAULT_KNOCKBACK_THRESHOLD);
    assert_eq!(p.bounce_count, bebeu_engine::entities::character::DEFAULT_BOUNCE_COUNT);
    assert_eq!(p.hit_recovery_ms, bebeu_engine::entities::character::DEFAULT_HIT_RECOVERY_MS);
    assert_eq!(p.lie_down_duration_ms, bebeu_engine::entities::character::DEFAULT_LIE_DOWN_DURATION_MS);
    assert_eq!(p.rise_duration_ms, bebeu_engine::entities::character::DEFAULT_RISE_DURATION_MS);
    assert_eq!(p.guard_break_threshold, bebeu_engine::entities::character::DEFAULT_GUARD_BREAK_THRESHOLD);
    assert_eq!(p.guard_recovery_ms, bebeu_engine::entities::character::DEFAULT_GUARD_RECOVERY_MS);
}

#[test]
fn hex_color_needs_two_hex_digits_per_channel() {
    assert_eq!(HexColor::parse("#+f+f+f").unwrap_err(), "invalid hex digit: invalid digit found in string");
    assert_eq!(HexColor::parse("#ff+fff").unwrap_err(), "invalid hex digit: invalid digit found in string");
}

#[test]
fn hex_color_with_a_multibyte_character_is_an_error() {
    assert_eq!(HexColor::parse("#0\u{e9}000").unwrap_err(), "invalid hex digit: invalid digit found in string");
    assert_eq!(HexColor::parse("#\u{e9}\u{e9}\u{e9}").unwrap_err(), "invalid hex digit: invalid digit found in string");
    assert_eq!(HexColor::parse("#\u{e9}00000").unwrap_err(), "color must be #RRGGBB or #RRGGBBAA: #\u{e9}00000");
}

#[test]
fn empty_area_list_gets_the_default_area() {
    assert_eq!(areas_or_default(Vec::new()), default_areas());
    let one = vec![Area { near_z: 10, ..Area::default() }];
    assert_eq!(areas_or_default(one.clone()), one);
}

#[test]
fn player_icon_shows_the_sprite_of_the_state_role() {
    let map = [(Role::Attack, 2), (Role::Hit, 3), (Role::Walk, 9)];
    let group = [0, 1, 2, 3];
    assert_eq!(icon_sprite_index(CharacterState::Attack, &map, &group, 0), 2);
    assert_eq!(icon_sprite_index(CharacterState::Hit, &map, &group, 0), 3);
    // no entry for the role: the default sprite
    assert_eq!(icon_sprite_index(CharacterState::Idle, &map, &group, 1), 1);
    // the entry names a sprite the group lacks: the default sprite
    assert_eq!(icon_sprite_index(CharacterState::Walk, &map, &group, 1), 1);
}

#[test]
fn player_icon_shakes_only_when_hp_drops() {
    let mut last = 0;
    assert!(!icon_hp_dropped(&mut last, 100));
    assert_eq!(last, 100);
    assert!(!icon_hp_dropped(&mut last, 100));
    assert!(icon_hp_dropped(&mut last, 80));
    assert_eq!(last, 80);
    assert!(!icon_hp_dropped(&mut last, 90));
}
