//! The title menu: Start, Options, Quit.
use vstd::prelude::*;

use crate::boot::entrypoint::SceneState;

verus! {

pub const TITLE_MENU_ITEM_COUNT: usize = 3;

/// The highlighted title menu item.
#[derive(Debug, Clone, Copy, PartialEq, Eq, Structural)]
pub struct TitleMenuSelection(pub usize);

impl Default for TitleMenuSelection {
    fn default() -> (r: Self)
        ensures
            r.0 == 0,
    {
        TitleMenuSelection(0)
    }
}

/// What confirming a title menu item does.
#[derive(Debug, Clone, Copy, PartialEq, Eq, Structural)]
pub enum TitleAction {
    /// Switch to a scene.
    Enter(SceneState),
    /// Quit the engine.
    Quit,
}

/// The selection after this frame's menu input: up moves to the previous
/// item and down to the next, both wrapping around; up is applied first.
pub open spec fn spec_title_navigate(selection: usize, up: bool, down: bool) -> usize {
    let s1 = if up { ((selection + TITLE_MENU_ITEM_COUNT - 1) % TITLE_MENU_ITEM_COUNT as int) as usize } else { selection };
    if down { ((s1 + 1) % TITLE_MENU_ITEM_COUNT as int) as usize } else { s1 }
}

impl TitleMenuSelection {
    /// Moves the selection by this frame's up and down presses.
    pub fn navigate(&mut self, up: bool, down: bool)
        requires
            old(self).0 <= usize::MAX - TITLE_MENU_ITEM_COUNT,
        ensures
            final(self).0 == spec_title_navigate(old(self).0, up, down),
            // Down goes to the next item, up to the previous one, wrapping at
            // either end; pressing both (or neither) leaves an item where it is.
            old(self).0 < TITLE_MENU_ITEM_COUNT && down && !up ==> final(self).0 == (if old(self).0 + 1
                == TITLE_MENU_ITEM_COUNT {
                0
            } else {
                old(self).0 + 1
            }),
            old(self).0 < TITLE_MENU_ITEM_COUNT && up && !down ==> final(self).0 == (if old(self).0 == 0 {
                TITLE_MENU_ITEM_COUNT - 1
            } else {
                old(self).0 - 1
            }),
            old(self).0 < TITLE_MENU_ITEM_COUNT && up == down ==> final(self).0 == old(self).0,
            final(self).0 < TITLE_MENU_ITEM_COUNT || (!up && !down && final(self).0 == old(self).0),
    {
        if up {
            self.0 = (self.0 + TITLE_MENU_ITEM_COUNT - 1) % TITLE_MENU_ITEM_COUNT;
        }
        if down {
            self.0 = (self.0 + 1) % TITLE_MENU_ITEM_COUNT;
        }
    }

    /// What confirming the selected item does: Start enters the battle,
    /// Options the options scene, Quit quits; `None` outside the menu.
    pub fn confirm(&self) -> (r: Option<TitleAction>)
        ensures
            r == (if self.0 == 0 {
                Some(TitleAction::Enter(SceneState::Battle))
            } else if self.0 == 1 {
                Some(TitleAction::Enter(SceneState::Options))
            } else if self.0 == 2 {
                Some(TitleAction::Quit)
            } else {
                None
            }),
    {
        match self.0 {
            0 => Some(TitleAction::Enter(SceneState::Battle)),
            1 => Some(TitleAction::Enter(SceneState::Options)),
            2 => Some(TitleAction::Quit),
            _ => None,
        }
    }
}

/// Within the menu, down then up (or up then down) comes back to the same
/// item, and three steps in one direction go all the way round.
pub proof fn lemma_title_navigation_wraps(s: usize)
    requires
        s < TITLE_MENU_ITEM_COUNT,
    ensures
        spec_title_navigate(spec_title_navigate(s, false, true), true, false) == s,
        spec_title_navigate(spec_title_navigate(s, true, false), false, true) == s,
        spec_title_navigate(spec_title_navigate(spec_title_navigate(s, false, true), false, true), false, true) == s,
        spec_title_navigate(s, false, true) < TITLE_MENU_ITEM_COUNT,
        spec_title_navigate(s, true, false) < TITLE_MENU_ITEM_COUNT,
{
}

} // verus!
