//! The key-config menu: one row per action, then Reset and Back.
//!
//! Browsing moves the highlight; confirming an action row starts editing
//! it, and the next key pressed (Escape excepted) becomes its only binding.
//! Reset puts the default bindings into the edited map, Back commits the
//! edited map, and cancelling leaves without committing (or, while editing,
//! stops editing without a change).
use vstd::prelude::*;

use crate::shared::input::{Action, ActionMap, KeyCode, action_at, action_index_exec, append_key_names, join_key_names};

verus! {

/// Action rows, then Reset, then Back.
pub const OPTIONS_MENU_ITEM_COUNT: usize = 10;
pub const RESET_INDEX: usize = 8;
pub const BACK_INDEX: usize = 9;

/// Browsing the rows, or waiting for the key to bind to an action.
#[derive(Debug, Clone, Copy, PartialEq, Eq, Hash, Structural)]
pub enum KeyConfigMode {
    Browse,
    EditingAction(Action),
}

impl Default for KeyConfigMode {
    fn default() -> (r: Self)
        ensures
            r == KeyConfigMode::Browse,
    {
        KeyConfigMode::Browse
    }
}

/// A row of the menu.
#[derive(Debug, Clone, Copy, PartialEq, Eq, Hash, Structural)]
pub enum OptionsMenuRow {
    Action(Action),
    Reset,
    Back,
}

/// The row at a menu position.
pub open spec fn spec_row_at(i: int) -> Option<OptionsMenuRow> {
    if 0 <= i < 8 {
        Some(OptionsMenuRow::Action(crate::shared::input::all_actions()[i]))
    } else if i == RESET_INDEX {
        Some(OptionsMenuRow::Reset)
    } else if i == BACK_INDEX {
        Some(OptionsMenuRow::Back)
    } else {
        None
    }
}

/// The menu position of a row.
pub open spec fn spec_row_index(row: OptionsMenuRow) -> int {
    match row {
        OptionsMenuRow::Action(a) => crate::shared::input::action_index(a),
        OptionsMenuRow::Reset => RESET_INDEX as int,
        OptionsMenuRow::Back => BACK_INDEX as int,
    }
}

impl OptionsMenuRow {
    /// The row's menu position.
    pub fn index(self) -> (r: usize)
        ensures
            r == spec_row_index(self),
            r < OPTIONS_MENU_ITEM_COUNT,
    {
        match self {
            OptionsMenuRow::Action(a) => action_index(a),
            OptionsMenuRow::Reset => RESET_INDEX,
            OptionsMenuRow::Back => BACK_INDEX,
        }
    }
}

/// Position of an action's row.
pub fn action_index(action: Action) -> (r: usize)
    ensures
        r == crate::shared::input::action_index(action),
        r < 8,
{
    action_index_exec(action)
}

/// The row at menu position `index`; `None` past the last row.
pub fn row_at_index(index: usize) -> (r: Option<OptionsMenuRow>)
    ensures
        r == spec_row_at(index as int),
{
    if index < 8 {
        return Some(OptionsMenuRow::Action(action_at(index)));
    }
    if index == RESET_INDEX {
        Some(OptionsMenuRow::Reset)
    } else if index == BACK_INDEX {
        Some(OptionsMenuRow::Back)
    } else {
        None
    }
}

/// Rows and positions match one to one.
pub proof fn lemma_row_index_round_trip(row: OptionsMenuRow)
    ensures
        spec_row_at(spec_row_index(row)) == Some(row),
{
    match row {
        OptionsMenuRow::Action(a) => {
            crate::shared::input::lemma_action_index_injective(a, crate::shared::input::all_actions()[crate::shared::input::action_index(a)]);
        },
        _ => {},
    }
}

/// The label of an action's bindings: `[A, B]`, or `(none)` when unbound.
pub open spec fn spec_format_bindings(keys: Seq<KeyCode>) -> Seq<char> {
    if keys.len() == 0 {
        seq!['(', 'n', 'o', 'n', 'e', ')']
    } else {
        seq!['['] + join_key_names(keys) + seq![']']
    }
}

/// Formats the keys bound to `action` for the menu.
pub fn format_bindings(map: &ActionMap, action: Action) -> (r: String)
    ensures
        r@ == spec_format_bindings(map.bound_keys(action)),
{
    let keys = map.bindings_for(action);
    if keys.len() == 0 {
        proof {
            reveal_strlit("(none)");
        }
        return String::from_str("(none)");
    }
    let mut out = String::from_str("[");
    append_key_names(&mut out, keys);
    out.append("]");
    proof {
        reveal_strlit("[");
        reveal_strlit("]");
    }
    out
}

/// How a row is drawn.
#[derive(Debug, Clone, Copy, PartialEq, Eq, Structural)]
pub enum RowHighlight {
    Normal,
    Selected,
    /// The selected action row while its key is awaited.
    Editing,
}

/// The highlight of `row`: the selected row is `Editing` when it is the
/// action being edited and `Selected` otherwise; other rows are `Normal`.
pub fn row_highlight(row: OptionsMenuRow, selection: usize, mode: KeyConfigMode) -> (r: RowHighlight)
    ensures
        r == (if spec_row_index(row) == selection {
            if mode matches KeyConfigMode::EditingAction(a) && row == OptionsMenuRow::Action(a) {
                RowHighlight::Editing
            } else {
                RowHighlight::Selected
            }
        } else {
            RowHighlight::Normal
        }),
{
    if row.index() == selection {
        match mode {
            KeyConfigMode::EditingAction(a) => if row == OptionsMenuRow::Action(a) {
                RowHighlight::Editing
            } else {
                RowHighlight::Selected
            },
            KeyConfigMode::Browse => RowHighlight::Selected,
        }
    } else {
        RowHighlight::Normal
    }
}

/// The state of the options scene: highlighted row, mode, and the map
/// being edited.
#[derive(Debug)]
pub struct OptionsMenu {
    pub selection: usize,
    pub mode: KeyConfigMode,
    pub editing: ActionMap,
}

/// The selection after this frame's up and down presses (up first), both
/// wrapping around.
pub open spec fn spec_options_navigate(selection: usize, up: bool, down: bool) -> usize {
    let s1 = if up { ((selection + OPTIONS_MENU_ITEM_COUNT - 1) % OPTIONS_MENU_ITEM_COUNT as int) as usize } else { selection };
    if down { ((s1 + 1) % OPTIONS_MENU_ITEM_COUNT as int) as usize } else { s1 }
}

/// The first key of `keys` other than Escape.
pub open spec fn first_bindable(keys: Seq<KeyCode>) -> Option<KeyCode>
    decreases keys.len(),
{
    if keys.len() == 0 {
        None
    } else if keys[0] != KeyCode::Escape {
        Some(keys[0])
    } else {
        first_bindable(keys.drop_first())
    }
}

/// The key that editing binds is the first key pressed that is not Escape:
/// the one at the first position that does not hold Escape; with only
/// Escapes pressed there is none.
pub proof fn lemma_first_bindable(keys: Seq<KeyCode>)
    ensures
        forall|i: int|
            0 <= i < keys.len() && keys[i] != KeyCode::Escape && (forall|j: int| 0 <= j < i ==> keys[j] == KeyCode::Escape)
                ==> first_bindable(keys) == Some(#[trigger] keys[i]),
        (forall|j: int| 0 <= j < keys.len() ==> keys[j] == KeyCode::Escape) ==> first_bindable(keys) is None,
    decreases keys.len(),
{
    if keys.len() > 0 {
        lemma_first_bindable(keys.drop_first());
        assert forall|i: int|
            0 <= i < keys.len() && keys[i] != KeyCode::Escape && (forall|j: int| 0 <= j < i ==> keys[j] == KeyCode::Escape)
                implies first_bindable(keys) == Some(#[trigger] keys[i]) by {
            if i > 0 {
                assert(keys[0] == KeyCode::Escape);
                assert(keys.drop_first()[i - 1] == keys[i]);
                assert forall|j: int| 0 <= j < i - 1 implies keys.drop_first()[j] == KeyCode::Escape by {
                    assert(keys.drop_first()[j] == keys[j + 1]);
                }
            }
        }
        if forall|j: int| 0 <= j < keys.len() ==> keys[j] == KeyCode::Escape {
            assert forall|j: int| 0 <= j < keys.len() - 1 implies keys.drop_first()[j] == KeyCode::Escape by {
                assert(keys.drop_first()[j] == keys[j + 1]);
            }
        }
    }
}

impl OptionsMenu {
    /// Entering the scene: the first row highlighted, browsing, editing a
    /// copy of the current bindings.
    pub fn new(editing: ActionMap) -> (r: Self)
        ensures
            r.selection == 0,
            r.mode == KeyConfigMode::Browse,
            r.editing == editing,
    {
        OptionsMenu { selection: 0, mode: KeyConfigMode::Browse, editing }
    }

    /// Moves the highlight while browsing; ignored while editing.
    pub fn navigate(&mut self, up: bool, down: bool)
        requires
            old(self).selection <= usize::MAX - OPTIONS_MENU_ITEM_COUNT,
        ensures
            final(self).mode == old(self).mode,
            final(self).editing == old(self).editing,
            final(self).selection == (if old(self).mode == KeyConfigMode::Browse {
                spec_options_navigate(old(self).selection, up, down)
            } else {
                old(self).selection
            }),
            // While browsing within the menu, down goes to the next row and up
            // to the previous one, wrapping at either end.
            old(self).mode == KeyConfigMode::Browse && old(self).selection < OPTIONS_MENU_ITEM_COUNT && down && !up
                ==> final(self).selection == (if old(self).selection == BACK_INDEX {
                0int
            } else {
                old(self).selection + 1
            }),
            old(self).mode == KeyConfigMode::Browse && old(self).selection < OPTIONS_MENU_ITEM_COUNT && up && !down
                ==> final(self).selection == (if old(self).selection == 0 {
                BACK_INDEX as int
            } else {
                old(self).selection - 1
            }),
            old(self).selection < OPTIONS_MENU_ITEM_COUNT && up == down ==> final(self).selection == old(self).selection,
    {
        if self.mode != KeyConfigMode::Browse {
            return;
        }
        if up {
            self.selection = (self.selection + OPTIONS_MENU_ITEM_COUNT - 1) % OPTIONS_MENU_ITEM_COUNT;
        }
        if down {
            self.selection = (self.selection + 1) % OPTIONS_MENU_ITEM_COUNT;
        }
    }

    /// Confirms the highlighted row while browsing (not on a frame whose
    /// mode has just changed): an action row starts editing that action,
    /// Reset puts the default bindings into the edited map, and Back
    /// returns `true`, meaning: commit the edited map and go back to the
    /// title.
    pub fn confirm(&mut self, mode_just_changed: bool, confirm_pressed: bool) -> (back: bool)
        ensures
            final(self).selection == old(self).selection,
            ({
                let active = old(self).mode == KeyConfigMode::Browse && !mode_just_changed && confirm_pressed;
                match (if active { spec_row_at(old(self).selection as int) } else { None }) {
                    Some(OptionsMenuRow::Action(a)) => final(self).mode == KeyConfigMode::EditingAction(a) && final(self).editing == old(self).editing && !back,
                    Some(OptionsMenuRow::Reset) => final(self).mode == old(self).mode && (forall|a: Action|
                        #[trigger] final(self).editing.bound_keys(a) == crate::shared::input::default_keys(a)) && !back,
                    Some(OptionsMenuRow::Back) => final(self).mode == old(self).mode && final(self).editing == old(self).editing && back,
                    None => final(self).mode == old(self).mode && final(self).editing == old(self).editing && !back,
                }
            }),
    {
        if self.mode != KeyConfigMode::Browse || mode_just_changed || !confirm_pressed {
            return false;
        }
        match row_at_index(self.selection) {
            Some(OptionsMenuRow::Action(a)) => {
                self.mode = KeyConfigMode::EditingAction(a);
                false
            },
            Some(OptionsMenuRow::Reset) => {
                self.editing = ActionMap::default();
                false
            },
            Some(OptionsMenuRow::Back) => true,
            None => false,
        }
    }

    /// Handles a cancel press (not on a frame whose mode has just changed):
    /// while browsing the menu's cancel key returns `true`, meaning: go back
    /// to the title without committing; while editing, Escape stops
    /// editing and leaves the bindings as they were.
    pub fn cancel(&mut self, mode_just_changed: bool, menu_cancel_pressed: bool, escape_pressed: bool) -> (leave: bool)
        ensures
            final(self).selection == old(self).selection,
            final(self).editing == old(self).editing,
            leave == (!mode_just_changed && old(self).mode == KeyConfigMode::Browse && menu_cancel_pressed),
            final(self).mode == (if !mode_just_changed && old(self).mode != KeyConfigMode::Browse && escape_pressed {
                KeyConfigMode::Browse
            } else {
                old(self).mode
            }),
    {
        if mode_just_changed {
            return false;
        }
        match self.mode {
            KeyConfigMode::Browse => menu_cancel_pressed,
            KeyConfigMode::EditingAction(_) => {
                if escape_pressed {
                    self.mode = KeyConfigMode::Browse;
                }
                false
            },
        }
    }

    /// While editing an action, binds it to the first key pressed this
    /// frame other than Escape (as its only key) and goes back to browsing;
    /// with no such key nothing changes.
    pub fn capture_key(&mut self, just_pressed: &[KeyCode])
        ensures
            final(self).selection == old(self).selection,
            ({
                match old(self).mode {
                    KeyConfigMode::EditingAction(a) => match first_bindable(just_pressed@) {
                        Some(k) => final(self).mode == KeyConfigMode::Browse && final(self).editing.bound_keys(a)
                            == seq![k] && forall|b: Action|
                            b != a ==> #[trigger] final(self).editing.bound_keys(b) == old(self).editing.bound_keys(b),
                        None => final(self).mode == old(self).mode && final(self).editing == old(self).editing,
                    },
                    KeyConfigMode::Browse => final(self).mode == old(self).mode && final(self).editing == old(self).editing,
                }
            }),
    {
        let action = match self.mode {
            KeyConfigMode::EditingAction(a) => a,
            KeyConfigMode::Browse => {
                return;
            },
        };
        let mut i: usize = 0;
        assert(just_pressed@.subrange(0, just_pressed@.len() as int) =~= just_pressed@);
        while i < just_pressed.len()
            invariant
                i <= just_pressed.len(),
                first_bindable(just_pressed@) == first_bindable(just_pressed@.subrange(i as int, just_pressed@.len() as int)),
                self.mode == old(self).mode,
                self.mode == KeyConfigMode::EditingAction(action),
                self.editing == old(self).editing,
                self.selection == old(self).selection,
            decreases just_pressed.len() - i,
        {
            let code = just_pressed[i];
            let rest = Ghost(just_pressed@.subrange(i as int, just_pressed@.len() as int));
            assert(rest@[0] == code);
            if code != KeyCode::Escape {
                let v = vec![code];
                self.editing.set_binding(action, v);
                self.mode = KeyConfigMode::Browse;
                return;
            }
            assert(rest@.drop_first() =~= just_pressed@.subrange(i + 1, just_pressed@.len() as int));
            i = i + 1;
        }
    }

    /// Whether the "press any key" prompt shows: while editing.
    pub fn prompt_visible(&self) -> (r: bool)
        ensures
            r == (self.mode != KeyConfigMode::Browse),
    {
        match self.mode {
            KeyConfigMode::Browse => false,
            KeyConfigMode::EditingAction(_) => true,
        }
    }
}

} // verus!
