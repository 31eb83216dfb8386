//! Facing, faction and controller of a character, and the horizontal flip
//! that facing and animation combine into.
use vstd::prelude::*;

verus! {

/// The faction of a character: `Hero` shows an HP bar, `Villain` is the
/// side that gets hit. Damage only passes between different sides.
#[derive(Debug, Clone, Copy, PartialEq, Eq, Hash, Structural)]
pub enum Side {
    Hero,
    Villain,
}

/// Who drives a character: keyboard input (`Human`) or an AI brain (`Ai`).
#[derive(Debug, Clone, Copy, PartialEq, Eq, Hash, Structural)]
pub enum Controller {
    Human,
    Ai,
}

/// The way a character looks.
#[derive(Debug, Clone, Copy, PartialEq, Eq, Hash, Structural)]
pub enum Facing {
    Right,
    Left,
}

impl Default for Facing {
    fn default() -> (r: Self)
        ensures
            r == Facing::Right,
    {
        Facing::Right
    }
}

/// Final horizontal flip: the facing flip (left faces flipped) XOR the
/// animation's own flip.
pub open spec fn spec_total_flip_x(facing: Facing, anim_flip_x: bool) -> bool {
    (facing == Facing::Left) != anim_flip_x
}

/// Combines the facing flip with the animation's flip by exclusive or.
pub fn total_flip_x(facing: Facing, anim_flip_x: bool) -> (r: bool)
    ensures
        r == spec_total_flip_x(facing, anim_flip_x),
        // Facing right shows the animation's own flip; facing left mirrors it.
        facing == Facing::Right ==> r == anim_flip_x,
        facing == Facing::Left ==> r == !anim_flip_x,
{
    let facing_flip = match facing {
        Facing::Left => true,
        Facing::Right => false,
    };
    facing_flip != anim_flip_x
}

/// A left-facing character with a flipped animation looks unflipped, and
/// flipping the animation twice gives back the flip it started from.
pub proof fn lemma_total_flip_x_cancels(facing: Facing, anim_flip_x: bool)
    ensures
        spec_total_flip_x(Facing::Left, true) == false,
        spec_total_flip_x(facing, !anim_flip_x) == !spec_total_flip_x(facing, anim_flip_x),
        spec_total_flip_x(Facing::Right, anim_flip_x) == anim_flip_x,
{
}

} // verus!
