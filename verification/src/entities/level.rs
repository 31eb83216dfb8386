//! Levels: the walkable areas and the opponent spawn triggers.
//!
//! World coordinates are base-image pixels: X grows to the right and Z
//! grows toward the viewer (down the image), so an area's near edge has the
//! larger Z.
use vstd::prelude::*;

verus! {

/// Base image of a level whose YAML names none.
pub const DEFAULT_BASE: &'static str = "base.png";

pub const DEFAULT_NEAR_Z: i32 = 80;
pub const DEFAULT_FAR_Z: i32 = 0;
pub const DEFAULT_MIN_X: i32 = 0;
pub const DEFAULT_MAX_X: i32 = 640;

/// A walkable area: a trapezoid whose near (`near_z`) and far (`far_z`)
/// edges are horizontal, with `near_z >= far_z`.
#[derive(Debug, Clone, Copy, PartialEq, Eq, Structural)]
pub struct Area {
    pub near_z: i32,
    pub far_z: i32,
    pub near_min_x: i32,
    pub near_max_x: i32,
    pub far_min_x: i32,
    pub far_max_x: i32,
}

impl Default for Area {
    /// The rectangle `0..=640` by `0..=80`.
    fn default() -> (r: Self)
        ensures
            r == (Area {
                near_z: DEFAULT_NEAR_Z,
                far_z: DEFAULT_FAR_Z,
                near_min_x: DEFAULT_MIN_X,
                near_max_x: DEFAULT_MAX_X,
                far_min_x: DEFAULT_MIN_X,
                far_max_x: DEFAULT_MAX_X,
            }),
            r.near_z >= r.far_z,
    {
        Area {
            near_z: DEFAULT_NEAR_Z,
            far_z: DEFAULT_FAR_Z,
            near_min_x: DEFAULT_MIN_X,
            near_max_x: DEFAULT_MAX_X,
            far_min_x: DEFAULT_MIN_X,
            far_max_x: DEFAULT_MAX_X,
        }
    }
}

/// An opponent that appears, once, when the player first reaches
/// `trigger_x`.
#[derive(Debug, Clone, PartialEq, Eq)]
pub struct OpponentTrigger {
    pub character_name: String,
    pub trigger_x: i32,
    pub spawn_x: i32,
    pub spawn_y: i32,
    pub spawn_z: i32,
}

impl Default for OpponentTrigger {
    fn default() -> (r: Self)
        ensures
            r.character_name@ == Seq::<char>::empty(),
            r.trigger_x == 0 && r.spawn_x == 0 && r.spawn_y == 0 && r.spawn_z == 0,
    {
        OpponentTrigger { character_name: String::new(), trigger_x: 0, spawn_x: 0, spawn_y: 0, spawn_z: 0 }
    }
}

/// The base image name of a level whose YAML names none.
pub fn default_base() -> (r: String)
    ensures
        r@ == DEFAULT_BASE@,
{
    String::from_str(DEFAULT_BASE)
}

/// The walkable areas of a level whose YAML lists none: one default area.
pub fn default_areas() -> (r: Vec<Area>)
    ensures
        r@ == seq![
            Area {
                near_z: DEFAULT_NEAR_Z,
                far_z: DEFAULT_FAR_Z,
                near_min_x: DEFAULT_MIN_X,
                near_max_x: DEFAULT_MAX_X,
                far_min_x: DEFAULT_MIN_X,
                far_max_x: DEFAULT_MAX_X,
            },
        ],
{
    vec![Area::default()]
}

/// The walkable areas of a level as read: an empty list (or none given)
/// is replaced by the one default area; any other list stays as it is.
pub fn areas_or_default(areas: Vec<Area>) -> (r: Vec<Area>)
    ensures
        areas@.len() == 0 ==> r@ == seq![
            Area {
                near_z: DEFAULT_NEAR_Z,
                far_z: DEFAULT_FAR_Z,
                near_min_x: DEFAULT_MIN_X,
                near_max_x: DEFAULT_MAX_X,
                far_min_x: DEFAULT_MIN_X,
                far_max_x: DEFAULT_MAX_X,
            },
        ],
        areas@.len() > 0 ==> r@ == areas@,
{
    if areas.len() == 0 {
        default_areas()
    } else {
        areas
    }
}

/// Whether the player at `player_x` has reached a trigger.
pub open spec fn reached(t: OpponentTrigger, player_x: i32) -> bool {
    player_x >= t.trigger_x
}

/// Index of the first trigger, in level order, that the player at
/// `player_x` (whole pixels, rounded down) has reached; `None` when the
/// player is behind all of them.
pub fn next_triggered_index(triggers: &[OpponentTrigger], player_x: i32) -> (r: Option<usize>)
    ensures
        match r {
            Some(i) => i < triggers@.len() && reached(triggers@[i as int], player_x) && forall|j: int|
                0 <= j < i ==> !reached(#[trigger] triggers@[j], player_x),
            None => forall|j: int| 0 <= j < triggers@.len() ==> !reached(#[trigger] triggers@[j], player_x),
        },
        // A trigger fires once the player's x is at or past its `trigger_x`.
        r matches Some(i) ==> player_x >= triggers@[i as int].trigger_x && forall|j: int|
            0 <= j < i ==> player_x < #[trigger] triggers@[j].trigger_x,
        r is None ==> forall|j: int| 0 <= j < triggers@.len() ==> player_x < #[trigger] triggers@[j].trigger_x,
{
    let mut i: usize = 0;
    while i < triggers.len()
        invariant
            0 <= i <= triggers.len(),
            forall|j: int| 0 <= j < i ==> !reached(#[trigger] triggers@[j], player_x),
        decreases triggers.len() - i,
    {
        if player_x >= triggers[i].trigger_x {
            return Some(i);
        }
        i = i + 1;
    }
    None
}

/// Takes out the first reached trigger (see [`next_triggered_index`]), so
/// that it fires only once; the others keep their order.
pub fn take_next_trigger(triggers: &mut Vec<OpponentTrigger>, player_x: i32) -> (r: Option<OpponentTrigger>)
    ensures
        match r {
            Some(t) => exists|i: int|
                0 <= i < old(triggers)@.len() && #[trigger] old(triggers)@[i] == t && reached(t, player_x) && (forall|j: int|
                    0 <= j < i ==> !reached(#[trigger] old(triggers)@[j], player_x)) && final(triggers)@ == old(
                    triggers,
                )@.remove(i),
            None => final(triggers)@ == old(triggers)@ && forall|j: int|
                0 <= j < old(triggers)@.len() ==> !reached(#[trigger] old(triggers)@[j], player_x),
        },
        // The trigger taken out is one the player has reached, and one fewer
        // is left; when none is reached all stay.
        r matches Some(t) ==> player_x >= t.trigger_x && final(triggers)@.len() == old(triggers)@.len() - 1,
        r is None ==> forall|j: int| 0 <= j < old(triggers)@.len() ==> player_x < #[trigger] old(triggers)@[j].trigger_x,
{
    match next_triggered_index(triggers.as_slice(), player_x) {
        Some(i) => {
            let t = triggers.remove(i);
            Some(t)
        },
        None => None,
    }
}

} // verus!
