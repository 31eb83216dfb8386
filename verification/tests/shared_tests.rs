use std::collections::HashMap;

use bebeu_engine::shared::config::{EngineConfig, RuntimePaths, join_path};
use bebeu_engine::shared::flip::{FlipMode, flip_x_of, flip_y_of};
use bebeu_engine::shared::input::{
    Action, ActionMap, KeyCode, MenuAction, key_code_from_str, key_code_to_str, menu_action_just_pressed,
    menu_action_pressed, render_input_yml, INPUT_YML_HEADER,
};
use bebeu_engine::shared::player_id::PlayerId;

// ---- flip ----

#[test]
fn flips_x_matrix() {
    assert!(FlipMode::Horizontal.flips_x());
    assert!(!FlipMode::Vertical.flips_x());
    assert!(FlipMode::Both.flips_x());
}

#[test]
fn flips_y_matrix() {
    assert!(!FlipMode::Horizontal.flips_y());
    assert!(FlipMode::Vertical.flips_y());
    assert!(FlipMode::Both.flips_y());
}

#[test]
fn flip_x_of_none_is_false() {
    assert!(!flip_x_of(None));
}

#[test]
fn flip_x_of_horizontal_is_true() {
    assert!(flip_x_of(Some(FlipMode::Horizontal)));
    assert!(flip_x_of(Some(FlipMode::Both)));
    assert!(!flip_x_of(Some(FlipMode::Vertical)));
}

#[test]
fn flip_y_of_follows_vertical_component() {
    assert!(!flip_y_of(None));
    assert!(flip_y_of(Some(FlipMode::Vertical)));
    assert!(flip_y_of(Some(FlipMode::Both)));
    assert!(!flip_y_of(Some(FlipMode::Horizontal)));
}

#[test]
fn player_id_default_is_p1() {
    assert_eq!(PlayerId::default(), PlayerId::P1);
}

// ---- config ----

fn fixture() -> (String, RuntimePaths) {
    let root = "fake/runtime".to_string();
    let runtime = RuntimePaths::from_root(root.clone());
    (root, runtime)
}

#[test]
fn root_returns_provided_path() {
    let (root, runtime) = fixture();
    assert_eq!(runtime.root(), root.as_str());
}

#[test]
fn data_dir_appends_data_segment() {
    let (_root, runtime) = fixture();
    assert_eq!(runtime.data_dir(), "fake/runtime/data");
}

#[test]
fn project_file_resolves_under_data_projects() {
    let (_root, runtime) = fixture();
    assert_eq!(runtime.project_file("main"), "fake/runtime/data/projects/main.yml");
}

#[test]
fn character_file_resolves_under_data_characters() {
    let (_root, runtime) = fixture();
    assert_eq!(runtime.character_file("MooR_01"), "fake/runtime/data/characters/MooR_01.yml");
}

#[test]
fn character_dir_resolves_under_data_characters_without_extension() {
    let (_root, runtime) = fixture();
    assert_eq!(runtime.character_dir("MooR_01"), "fake/runtime/data/characters/MooR_01");
}

#[test]
fn level_file_resolves_under_data_levels() {
    let (_root, runtime) = fixture();
    assert_eq!(runtime.level_file("ct"), "fake/runtime/data/levels/ct.yml");
}

#[test]
fn sprite_group_file_resolves_under_character_sprite_groups() {
    let (_root, runtime) = fixture();
    assert_eq!(
        runtime.sprite_group_file("MooR_01", "walk"),
        "fake/runtime/data/characters/MooR_01/sprite-groups/walk.yml"
    );
}

#[test]
fn sprite_file_resolves_under_sprite_group_sprites() {
    let (_root, runtime) = fixture();
    assert_eq!(
        runtime.sprite_file("MooR_01", "walk", "001.png"),
        "fake/runtime/data/characters/MooR_01/sprite-groups/walk/sprites/001.png"
    );
}

#[test]
fn sound_file_resolves_under_sound_group_sounds() {
    let (_root, runtime) = fixture();
    assert_eq!(
        runtime.sound_file("MooR_01", "pain", "a.wav"),
        "fake/runtime/data/characters/MooR_01/sound-groups/pain/sounds/a.wav"
    );
}

#[test]
fn resolve_uses_engine_config_workspace_dir() {
    let cfg = EngineConfig { workspace_dir: Some("from/yml".to_string()) };
    let runtime = RuntimePaths::resolve(None, &cfg, "fallback".to_string());
    assert_eq!(runtime.root(), "from/yml");
}

#[test]
fn resolve_prefers_environment_then_yml_then_fallback() {
    let cfg = EngineConfig { workspace_dir: Some("from/yml".to_string()) };
    let env = RuntimePaths::resolve(Some("from/env".to_string()), &cfg, "fallback".to_string());
    assert_eq!(env.root(), "from/env");
    let none = RuntimePaths::resolve(None, &EngineConfig::default(), "fallback".to_string());
    assert_eq!(none.root(), "fallback");
}

#[test]
fn engine_config_default_is_all_none() {
    let cfg = EngineConfig::default();
    assert!(cfg.workspace_dir.is_none());
}

#[test]
fn join_path_follows_path_push_rules() {
    assert_eq!(join_path("a", "b"), "a/b");
    assert_eq!(join_path("a/", "b"), "a/b");
    assert_eq!(join_path("", "b"), "b");
    assert_eq!(join_path("a", "/abs"), "/abs");
    assert_eq!(join_path("a", ""), "a/");
}

// ---- input ----

#[test]
fn default_bindings_cover_all_actions() {
    let map = ActionMap::default();
    for action in Action::ALL {
        assert!(!map.bindings_for(action).is_empty(), "default should bind {action:?}");
    }
}

#[test]
fn pressed_returns_true_when_any_bound_key_is_held() {
    let map = ActionMap::default();
    let held = [KeyCode::KeyA];
    assert!(map.pressed(&held, Action::MoveLeft));
    assert!(!map.pressed(&held, Action::MoveRight));
}

#[test]
fn pressed_returns_false_when_no_bound_key_is_held() {
    let map = ActionMap::default();
    let held: [KeyCode; 0] = [];
    for action in Action::ALL {
        assert!(!map.pressed(&held, action), "no key held -> {action:?}=false");
    }
}

#[test]
fn just_pressed_fires_once_per_press_for_any_bound_key() {
    let map = ActionMap::default();
    // The frame of the press: Space is both just pressed and held.
    assert!(map.just_pressed(&[KeyCode::Space], Action::Attack));
    // The next frame: still held, no longer just pressed.
    assert!(!map.just_pressed(&[], Action::Attack));
    assert!(map.pressed(&[KeyCode::Space], Action::Attack));
}

#[test]
fn from_bindings_overrides_default_bindings() {
    let map = ActionMap::from_bindings(vec![(Action::Jump, vec![KeyCode::KeyZ])]);
    assert!(map.just_pressed(&[KeyCode::KeyZ], Action::Jump));
    assert!(!map.pressed(&[KeyCode::KeyZ], Action::Attack));
}

#[test]
fn action_snake_case_round_trips_for_all_variants() {
    for action in Action::ALL {
        let s = action.as_snake_case();
        assert_eq!(Action::from_snake_case(s), Some(action), "round-trip {action:?} via {s:?}");
    }
}

#[test]
fn action_from_snake_case_returns_none_for_unknown() {
    assert_eq!(Action::from_snake_case(""), None);
    assert_eq!(Action::from_snake_case("MoveLeft"), None);
    assert_eq!(Action::from_snake_case("fly"), None);
}

#[test]
fn key_code_round_trips_for_each_supported_family() {
    let samples = [
        (KeyCode::KeyA, "KeyA"),
        (KeyCode::KeyZ, "KeyZ"),
        (KeyCode::Digit0, "Digit0"),
        (KeyCode::Digit9, "Digit9"),
        (KeyCode::ArrowLeft, "ArrowLeft"),
        (KeyCode::ArrowDown, "ArrowDown"),
        (KeyCode::F1, "F1"),
        (KeyCode::F12, "F12"),
        (KeyCode::ShiftLeft, "ShiftLeft"),
        (KeyCode::ControlRight, "ControlRight"),
        (KeyCode::AltLeft, "AltLeft"),
        (KeyCode::Space, "Space"),
        (KeyCode::Enter, "Enter"),
        (KeyCode::Escape, "Escape"),
        (KeyCode::Tab, "Tab"),
        (KeyCode::Backspace, "Backspace"),
        (KeyCode::Delete, "Delete"),
    ];
    for (code, name) in samples {
        assert_eq!(key_code_from_str(name), Some(code), "from_str({name:?}) == {code:?}");
        assert_eq!(key_code_to_str(code), Some(name), "to_str({code:?}) == {name:?}");
    }
}

#[test]
fn key_code_from_str_returns_none_for_unsupported() {
    assert_eq!(key_code_from_str(""), None);
    assert_eq!(key_code_from_str("Mouse0"), None);
    assert_eq!(key_code_from_str("NumpadEnter"), None);
}

fn raw(entries: &[(&str, &[&str])]) -> Vec<(String, Vec<String>)> {
    entries
        .iter()
        .map(|(a, ks)| (a.to_string(), ks.iter().map(|k| k.to_string()).collect()))
        .collect()
}

#[test]
fn from_raw_partial_override_keeps_default_for_unspecified_actions() {
    let map = ActionMap::from_raw_with_default_fallback(&raw(&[("jump", &["KeyZ"])]));
    assert_eq!(map.bindings_for(Action::Jump), &[KeyCode::KeyZ]);
    assert_eq!(map.bindings_for(Action::Attack), &[KeyCode::Space, KeyCode::KeyJ]);
}

#[test]
fn from_raw_empty_vec_unbinds_action() {
    let map = ActionMap::from_raw_with_default_fallback(&raw(&[("jump", &[])]));
    assert!(map.bindings_for(Action::Jump).is_empty());
}

#[test]
fn from_raw_unknown_action_is_skipped_and_defaults_preserved() {
    let map = ActionMap::from_raw_with_default_fallback(&raw(&[("fly", &["KeyV"])]));
    assert_eq!(map.bindings_for(Action::Jump), &[KeyCode::KeyI]);
}

#[test]
fn from_raw_unknown_key_string_is_skipped_within_an_action() {
    let map = ActionMap::from_raw_with_default_fallback(&raw(&[("jump", &["KeyZ", "Mouse99", "KeyX"])]));
    assert_eq!(map.bindings_for(Action::Jump), &[KeyCode::KeyZ, KeyCode::KeyX]);
}

#[test]
fn menu_action_pressed_recognizes_any_bound_key() {
    let map = ActionMap::default();
    let keys = [KeyCode::Space];
    assert!(menu_action_pressed(&keys, &map, MenuAction::Confirm));
    assert!(menu_action_just_pressed(&keys, &map, MenuAction::Confirm));
    assert!(!menu_action_pressed(&keys, &map, MenuAction::Cancel));
    assert!(!menu_action_pressed(&keys, &map, MenuAction::Up));
}

#[test]
fn menu_action_cancel_uses_escape() {
    let map = ActionMap::default();
    let keys = [KeyCode::Escape];
    assert!(menu_action_just_pressed(&keys, &map, MenuAction::Cancel));
    assert!(!menu_action_pressed(&keys, &map, MenuAction::Confirm));
}

#[test]
fn menu_action_falls_through_to_gameplay_bindings() {
    let map = ActionMap::default();
    assert!(menu_action_just_pressed(&[KeyCode::KeyJ], &map, MenuAction::Confirm));
    assert!(menu_action_just_pressed(&[KeyCode::KeyI], &map, MenuAction::Cancel));
    assert!(menu_action_just_pressed(&[KeyCode::ArrowUp], &map, MenuAction::Up));
}

fn default_entries() -> Vec<(Action, Vec<KeyCode>)> {
    let map = ActionMap::default();
    Action::ALL.iter().map(|&a| (a, map.bindings_for(a).to_vec())).collect()
}

#[test]
fn menu_action_confirm_follows_remapped_attack() {
    let mut bindings = default_entries();
    bindings.push((Action::Attack, vec![KeyCode::KeyZ]));
    let map = ActionMap::from_bindings(bindings);
    assert!(menu_action_just_pressed(&[KeyCode::KeyZ], &map, MenuAction::Confirm));
    assert!(menu_action_just_pressed(&[KeyCode::Space], &map, MenuAction::Confirm));
}

fn reload(text: &str) -> ActionMap {
    let parsed: HashMap<String, HashMap<String, Vec<String>>> = serde_saphyr::from_str(text).expect("parse");
    let entries: Vec<(String, Vec<String>)> = parsed
        .get("bindings")
        .map(|b| b.iter().map(|(k, v)| (k.clone(), v.clone())).collect())
        .unwrap_or_default();
    ActionMap::from_raw_with_default_fallback(&entries)
}

#[test]
fn write_input_yml_round_trips_default_bindings() {
    let saved = ActionMap::default();
    let loaded = reload(&render_input_yml(&saved));
    for action in Action::ALL {
        assert_eq!(loaded.bindings_for(action), saved.bindings_for(action), "round-trip mismatch for {action:?}");
    }
}

#[test]
fn write_input_yml_round_trips_custom_bindings() {
    let mut custom = default_entries();
    custom.push((Action::Jump, vec![KeyCode::KeyZ]));
    custom.push((Action::Guard, vec![]));
    let saved = ActionMap::from_bindings(custom);
    let loaded = reload(&render_input_yml(&saved));
    assert_eq!(loaded.bindings_for(Action::Jump), &[KeyCode::KeyZ]);
    assert!(loaded.bindings_for(Action::Guard).is_empty());
    assert_eq!(loaded.bindings_for(Action::MoveLeft), &[KeyCode::ArrowLeft, KeyCode::KeyA]);
}

#[test]
fn write_input_yml_starts_with_header_comment() {
    let text = render_input_yml(&ActionMap::default());
    assert!(text.starts_with("# Engine の gameplay 入力バインド"), "header missing, got:\n{text}");
    assert!(text.starts_with(INPUT_YML_HEADER));
    let move_left_pos = text.find("move_left:").expect("move_left present");
    let move_right_pos = text.find("move_right:").expect("move_right present");
    assert!(move_left_pos < move_right_pos, "ALL order expected: move_left then move_right");
}

#[test]
fn load_or_default_parses_partial_yaml() {
    let map = reload("bindings:\n  jump: [KeyZ]\n  attack: [KeyJ, KeyX]\n");
    assert_eq!(map.bindings_for(Action::Jump), &[KeyCode::KeyZ]);
    assert_eq!(map.bindings_for(Action::Attack), &[KeyCode::KeyJ, KeyCode::KeyX]);
    assert_eq!(map.bindings_for(Action::MoveLeft), &[KeyCode::ArrowLeft, KeyCode::KeyA]);
}

#[test]
fn set_binding_replaces_only_that_action() {
    let mut map = ActionMap::default();
    map.set_binding(Action::Jump, vec![KeyCode::KeyQ]);
    assert_eq!(map.bindings_for(Action::Jump), &[KeyCode::KeyQ]);
    assert_eq!(map.bindings_for(Action::Guard), &[KeyCode::KeyL]);
}
