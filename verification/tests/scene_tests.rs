use bebeu_engine::boot::entrypoint::{SceneState, initial_pixel_perfect_config, parse_run_options};
use bebeu_engine::boot::pixel_perfect::PixelPerfectConfig;
use bebeu_engine::features::character::debug_control::DebugPause;
use bebeu_engine::scenes::options::{
    KeyConfigMode, OptionsMenu, OptionsMenuRow, RowHighlight, action_index, format_bindings, row_at_index, row_highlight,
};
use bebeu_engine::scenes::title::{TitleAction, TitleMenuSelection, TITLE_MENU_ITEM_COUNT};
use bebeu_engine::shared::input::{Action, ActionMap, KeyCode, MenuAction, menu_action_just_pressed};

// ---- pixel perfect ----

#[test]
fn integer_scale_picks_largest_n_that_fits_in_window() {
    let cfg = PixelPerfectConfig::from_viewport_and_window((384, 216), (1280, 720));
    assert_eq!(cfg.intermediate, (1152, 648));
}

#[test]
fn integer_scale_is_at_least_1_even_for_tiny_window() {
    let cfg = PixelPerfectConfig::from_viewport_and_window((384, 216), (100, 100));
    assert_eq!(cfg.intermediate, (384, 216));
}

#[test]
fn integer_scale_uses_minimum_of_axes() {
    let cfg = PixelPerfectConfig::from_viewport_and_window((100, 100), (500, 250));
    assert_eq!(cfg.intermediate, (200, 200));
}

#[test]
fn initial_window_is_three_times_the_viewport() {
    let cfg = initial_pixel_perfect_config(None);
    assert_eq!(cfg.viewport, (384, 216));
    assert_eq!(cfg.window, (1152, 648));
    assert_eq!(cfg.intermediate, (1152, 648));
    let cfg = initial_pixel_perfect_config(Some((320, 180)));
    assert_eq!(cfg.window, (960, 540));
}

// ---- entrypoint ----

fn args(a: &[&str]) -> Vec<String> {
    a.iter().map(|s| s.to_string()).collect()
}

#[test]
fn project_comes_from_command_line_then_environment_then_main() {
    let r = parse_run_options(&args(&["--project", "demo"]), Some("env".to_string()));
    assert_eq!(r.project_name.as_deref(), Some("demo"));
    let r = parse_run_options(&args(&["--project=demo2"]), None);
    assert_eq!(r.project_name.as_deref(), Some("demo2"));
    let r = parse_run_options(&args(&["--verbose"]), Some("env".to_string()));
    assert_eq!(r.project_name.as_deref(), Some("env"));
    let r = parse_run_options(&args(&[]), Some(String::new()));
    assert_eq!(r.project_name.as_deref(), Some("main"));
    let r = parse_run_options(&args(&["--project=a", "--project", "b"]), None);
    assert_eq!(r.project_name.as_deref(), Some("b"));
}

#[test]
fn dangling_project_flag_falls_back() {
    let r = parse_run_options(&args(&["--project=a", "--project"]), Some("env".to_string()));
    assert_eq!(r.project_name.as_deref(), Some("env"));
}

#[test]
fn project_equals_prefix_is_stripped_repeatedly() {
    let r = parse_run_options(&args(&["--project=--project=x"]), None);
    assert_eq!(r.project_name.as_deref(), Some("x"));
}

#[test]
fn scene_state_default_is_title() {
    assert_eq!(SceneState::default(), SceneState::Title);
}

// ---- title ----

fn next_up(current: usize) -> usize {
    let mut s = TitleMenuSelection(current);
    s.navigate(true, false);
    s.0
}

fn next_down(current: usize) -> usize {
    let mut s = TitleMenuSelection(current);
    s.navigate(false, true);
    s.0
}

#[test]
fn navigation_down_wraps_at_last_to_first() {
    assert_eq!(next_down(0), 1);
    assert_eq!(next_down(1), 2);
    assert_eq!(next_down(TITLE_MENU_ITEM_COUNT - 1), 0);
}

#[test]
fn navigation_up_wraps_at_first_to_last() {
    assert_eq!(next_up(2), 1);
    assert_eq!(next_up(1), 0);
    assert_eq!(next_up(0), TITLE_MENU_ITEM_COUNT - 1);
}

#[test]
fn title_confirm_picks_the_scene() {
    assert_eq!(TitleMenuSelection(0).confirm(), Some(TitleAction::Enter(SceneState::Battle)));
    assert_eq!(TitleMenuSelection(1).confirm(), Some(TitleAction::Enter(SceneState::Options)));
    assert_eq!(TitleMenuSelection(2).confirm(), Some(TitleAction::Quit));
    assert_eq!(TitleMenuSelection(3).confirm(), None);
}

// ---- options ----

#[test]
fn rows_and_indices_match() {
    for (i, a) in Action::ALL.iter().enumerate() {
        assert_eq!(action_index(*a), i);
        assert_eq!(row_at_index(i), Some(OptionsMenuRow::Action(*a)));
    }
    assert_eq!(row_at_index(8), Some(OptionsMenuRow::Reset));
    assert_eq!(row_at_index(9), Some(OptionsMenuRow::Back));
    assert_eq!(row_at_index(10), None);
    assert_eq!(OptionsMenuRow::Back.index(), 9);
}

#[test]
fn bindings_label_lists_keys_or_none() {
    let mut map = ActionMap::default();
    assert_eq!(format_bindings(&map, Action::MoveLeft), "[ArrowLeft, KeyA]");
    map.set_binding(Action::Jump, vec![]);
    assert_eq!(format_bindings(&map, Action::Jump), "(none)");
}

#[test]
fn editing_binds_the_first_non_escape_key() {
    let mut menu = OptionsMenu::new(ActionMap::default());
    menu.navigate(false, true);
    menu.navigate(false, true);
    assert_eq!(menu.selection, 2);
    assert!(!menu.confirm(false, true));
    assert_eq!(menu.mode, KeyConfigMode::EditingAction(Action::MoveUp));
    assert!(menu.prompt_visible());
    menu.capture_key(&[KeyCode::Escape, KeyCode::KeyQ, KeyCode::KeyE]);
    assert_eq!(menu.mode, KeyConfigMode::Browse);
    assert_eq!(menu.editing.bindings_for(Action::MoveUp), &[KeyCode::KeyQ]);
    assert_eq!(menu.editing.bindings_for(Action::MoveDown), &[KeyCode::ArrowDown, KeyCode::KeyS]);
}

#[test]
fn escape_while_editing_keeps_bindings() {
    let mut menu = OptionsMenu::new(ActionMap::default());
    menu.confirm(false, true);
    menu.capture_key(&[KeyCode::Escape]);
    assert_eq!(menu.mode, KeyConfigMode::EditingAction(Action::MoveLeft));
    assert!(!menu.cancel(false, false, true));
    assert_eq!(menu.mode, KeyConfigMode::Browse);
    assert_eq!(menu.editing.bindings_for(Action::MoveLeft), &[KeyCode::ArrowLeft, KeyCode::KeyA]);
}

#[test]
fn input_is_ignored_on_the_frame_the_mode_changed() {
    let mut menu = OptionsMenu::new(ActionMap::default());
    assert!(!menu.confirm(true, true));
    assert_eq!(menu.mode, KeyConfigMode::Browse);
    assert!(!menu.cancel(true, true, true));
}

#[test]
fn reset_and_back_rows() {
    let mut edited = ActionMap::default();
    edited.set_binding(Action::Jump, vec![KeyCode::KeyZ]);
    let mut menu = OptionsMenu::new(edited);
    menu.selection = 8;
    assert!(!menu.confirm(false, true));
    assert_eq!(menu.editing.bindings_for(Action::Jump), &[KeyCode::KeyI]);
    menu.navigate(false, true);
    assert!(menu.confirm(false, true), "Back asks to commit and leave");
    menu.navigate(false, true);
    assert_eq!(menu.selection, 0, "the menu wraps around");
    assert!(menu.cancel(false, true, false), "cancel from browsing leaves");
}

#[test]
fn row_highlight_marks_selection_and_editing() {
    let edit = KeyConfigMode::EditingAction(Action::Attack);
    assert_eq!(row_highlight(OptionsMenuRow::Action(Action::Attack), 4, edit), RowHighlight::Editing);
    assert_eq!(row_highlight(OptionsMenuRow::Action(Action::Attack), 4, KeyConfigMode::Browse), RowHighlight::Selected);
    assert_eq!(row_highlight(OptionsMenuRow::Reset, 4, edit), RowHighlight::Normal);
}

// ---- debug pause ----

#[test]
fn simulation_active_when_not_paused() {
    let pause = DebugPause::default();
    assert!(!pause.paused, "default pause should be running (paused=false)");
    assert!(pause.simulation_active());
}

#[test]
fn single_step_overrides_paused_flag_semantically() {
    let cases = [(false, false, true), (false, true, true), (true, false, false), (true, true, true)];
    for (paused, single_step, expected) in cases {
        let mut pause = DebugPause::default();
        pause.paused = paused;
        pause.single_step = single_step;
        assert_eq!(pause.simulation_active(), expected, "paused={paused} single_step={single_step}");
    }
}

fn paused_with_space_latched() -> DebugPause {
    let mut pause = DebugPause::default();
    let none = pause.toggle_pause(true, false, &[]);
    assert!(none.is_empty());
    assert!(pause.paused);
    pause.latch_paused_input(&[KeyCode::Space, KeyCode::F4, KeyCode::Space]);
    assert_eq!(pause.latched_keys(), &[KeyCode::Space]);
    pause
}

#[test]
fn space_held_before_f4_advance_repress_just_pressed() {
    let mut pause = paused_with_space_latched();
    let repress = pause.toggle_pause(false, true, &[KeyCode::Space]);
    assert_eq!(repress, vec![KeyCode::Space]);
    assert!(pause.single_step);
    assert!(pause.latched_keys().is_empty());
}

#[test]
fn second_advance_with_same_held_key_does_not_repress() {
    let mut pause = paused_with_space_latched();
    let first = pause.toggle_pause(false, true, &[KeyCode::Space]);
    assert_eq!(first, vec![KeyCode::Space]);
    pause.reset_single_step();
    let second = pause.toggle_pause(false, true, &[KeyCode::Space]);
    assert!(second.is_empty());
}

#[test]
fn released_before_advance_is_not_repressed() {
    let mut pause = paused_with_space_latched();
    let repress = pause.toggle_pause(false, true, &[]);
    assert!(repress.is_empty());
    assert!(pause.latched_keys().is_empty());
}

#[test]
fn unpausing_forgets_latched_keys() {
    let mut pause = paused_with_space_latched();
    pause.toggle_pause(true, false, &[]);
    assert!(!pause.paused);
    assert!(pause.latched_keys().is_empty());
    pause.latch_paused_input(&[KeyCode::KeyA]);
    assert!(pause.latched_keys().is_empty());
}

#[test]
fn enter_or_space_on_the_title_starts_the_battle() {
    let map = ActionMap::default();
    for key in [KeyCode::Enter, KeyCode::Space] {
        assert!(menu_action_just_pressed(&[key], &map, MenuAction::Confirm));
        assert_eq!(TitleMenuSelection::default().confirm(), Some(TitleAction::Enter(SceneState::Battle)));
    }
}

#[test]
fn keys_pressed_during_the_pause_are_remembered_in_first_press_order() {
    let mut pause = DebugPause::new();
    pause.toggle_pause(true, false, &[]);
    pause.latch_paused_input(&[KeyCode::KeyJ, KeyCode::F3, KeyCode::KeyA]);
    pause.latch_paused_input(&[KeyCode::KeyA, KeyCode::KeyD, KeyCode::KeyJ]);
    assert_eq!(pause.latched_keys(), &[KeyCode::KeyJ, KeyCode::KeyA, KeyCode::KeyD]);
    let repress = pause.toggle_pause(false, true, &[KeyCode::KeyD, KeyCode::KeyJ]);
    assert_eq!(repress, vec![KeyCode::KeyJ, KeyCode::KeyD]);
}
