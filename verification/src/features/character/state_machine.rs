//! The per-character state and the transitions that do not depend on
//! physics: which states input may override, and the return to `Idle` when
//! a one-shot action's animation has played out.
use vstd::prelude::*;

use crate::entities::character::Role;

verus! {

/// What a character is doing. Each state plays the animation of the role
/// with the same name.
#[derive(Debug, Clone, Copy, PartialEq, Eq, Hash, Structural)]
pub enum CharacterState {
    Idle,
    Walk,
    Attack,
    Hit,
    Jump,
    JumpAttack,
    Guard,
    GuardBreak,
    KnockbackUp,
    KnockbackDown,
    BounceUp,
    BounceDown,
    Slide,
    LieDown,
    Rise,
    DownHit,
    DownAttack,
}

impl Default for CharacterState {
    fn default() -> (r: Self)
        ensures
            r == CharacterState::Idle,
    {
        CharacterState::Idle
    }
}

/// The role whose animation a state plays.
pub open spec fn spec_state_role(s: CharacterState) -> Role {
    match s {
        CharacterState::Idle => Role::Idle,
        CharacterState::Walk => Role::Walk,
        CharacterState::Attack => Role::Attack,
        CharacterState::Hit => Role::Hit,
        CharacterState::Jump => Role::Jump,
        CharacterState::JumpAttack => Role::JumpAttack,
        CharacterState::Guard => Role::Guard,
        CharacterState::GuardBreak => Role::GuardBreak,
        CharacterState::KnockbackUp => Role::KnockbackUp,
        CharacterState::KnockbackDown => Role::KnockbackDown,
        CharacterState::BounceUp => Role::BounceUp,
        CharacterState::BounceDown => Role::BounceDown,
        CharacterState::Slide => Role::Slide,
        CharacterState::LieDown => Role::LieDown,
        CharacterState::Rise => Role::Rise,
        CharacterState::DownHit => Role::DownHit,
        CharacterState::DownAttack => Role::DownAttack,
    }
}

/// One-shot actions that input and AI may not override until they end.
pub open spec fn spec_is_locked(s: CharacterState) -> bool {
    s == CharacterState::Attack || s == CharacterState::Hit
}

impl CharacterState {
    /// The animation role of this state.
    pub fn to_role(self) -> (r: Role)
        ensures
            r == spec_state_role(self),
            // Each state plays the role of the same name.
            self == CharacterState::Idle ==> r == Role::Idle,
            self == CharacterState::Walk ==> r == Role::Walk,
            self == CharacterState::Attack ==> r == Role::Attack,
            self == CharacterState::Hit ==> r == Role::Hit,
            self == CharacterState::Jump ==> r == Role::Jump,
            self == CharacterState::JumpAttack ==> r == Role::JumpAttack,
            self == CharacterState::Guard ==> r == Role::Guard,
            self == CharacterState::GuardBreak ==> r == Role::GuardBreak,
            self == CharacterState::KnockbackUp ==> r == Role::KnockbackUp,
            self == CharacterState::KnockbackDown ==> r == Role::KnockbackDown,
            self == CharacterState::BounceUp ==> r == Role::BounceUp,
            self == CharacterState::BounceDown ==> r == Role::BounceDown,
            self == CharacterState::Slide ==> r == Role::Slide,
            self == CharacterState::LieDown ==> r == Role::LieDown,
            self == CharacterState::Rise ==> r == Role::Rise,
            self == CharacterState::DownHit ==> r == Role::DownHit,
            self == CharacterState::DownAttack ==> r == Role::DownAttack,
    {
        match self {
            CharacterState::Idle => Role::Idle,
            CharacterState::Walk => Role::Walk,
            CharacterState::Attack => Role::Attack,
            CharacterState::Hit => Role::Hit,
            CharacterState::Jump => Role::Jump,
            CharacterState::JumpAttack => Role::JumpAttack,
            CharacterState::Guard => Role::Guard,
            CharacterState::GuardBreak => Role::GuardBreak,
            CharacterState::KnockbackUp => Role::KnockbackUp,
            CharacterState::KnockbackDown => Role::KnockbackDown,
            CharacterState::BounceUp => Role::BounceUp,
            CharacterState::BounceDown => Role::BounceDown,
            CharacterState::Slide => Role::Slide,
            CharacterState::LieDown => Role::LieDown,
            CharacterState::Rise => Role::Rise,
            CharacterState::DownHit => Role::DownHit,
            CharacterState::DownAttack => Role::DownAttack,
        }
    }

    /// Whether this is a one-shot action (`Attack`, `Hit`) that input and AI
    /// may not override.
    pub fn is_locked(self) -> (r: bool)
        ensures
            r == spec_is_locked(self),
            r <==> (self == CharacterState::Attack || self == CharacterState::Hit),
    {
        match self {
            CharacterState::Attack | CharacterState::Hit => true,
            _ => false,
        }
    }
}

/// No two states play the same role.
pub proof fn lemma_state_role_injective(a: CharacterState, b: CharacterState)
    ensures
        spec_state_role(a) == spec_state_role(b) ==> a == b,
{
}

/// The state after a tick of a character outside hit stop: a one-shot action
/// whose animation has finished returns to `Idle`; anything else stays.
pub fn end_oneshot(state: CharacterState, animation_finished: bool) -> (r: CharacterState)
    ensures
        r == (if spec_is_locked(state) && animation_finished { CharacterState::Idle } else { state }),
        // An attack or a flinch ends in `Idle` when its animation finishes;
        // nothing else changes here.
        (state == CharacterState::Attack || state == CharacterState::Hit) && animation_finished ==> r == CharacterState::Idle,
        !((state == CharacterState::Attack || state == CharacterState::Hit) && animation_finished) ==> r == state,
{
    if state.is_locked() && animation_finished {
        CharacterState::Idle
    } else {
        state
    }
}

} // verus!
