//! HUD decisions: which enemy an enemy bar follows, which sprite a player
//! icon shows, and when a player icon shakes on damage.
use vstd::prelude::*;

use crate::entities::character::Role;
use crate::entities::project::EnemyTarget;
use crate::features::character::state_machine::{CharacterState, spec_state_role};
use crate::features::character::movement::Side;
use crate::shared::text::str_eq;

verus! {

/// A character that an enemy bar may follow, in spawn order.
#[derive(Debug, Clone)]
pub struct EnemyCandidate {
    /// The runtime's identifier of the character.
    pub entity: u64,
    /// The character's `tag`.
    pub tag: Option<String>,
    pub side: Side,
}

/// Whether candidate `c` is a villain that the target picks by identity or
/// tag.
pub open spec fn matches_target(c: EnemyCandidate, target: EnemyTarget, last_engaged: Option<u64>) -> bool {
    c.side == Side::Villain && match target {
        EnemyTarget::LastEngagedBy(_) => last_engaged == Some(c.entity),
        EnemyTarget::Tag(t) => match c.tag {
            Some(ct) => ct@ == t@,
            None => false,
        },
        EnemyTarget::NthEnemy(_) => false,
    }
}

/// Number of villains among the first `i` candidates.
pub open spec fn villains_before(cs: Seq<EnemyCandidate>, i: int) -> nat
    decreases i,
{
    if i <= 0 {
        0
    } else {
        villains_before(cs, i - 1) + if cs[i - 1].side == Side::Villain { 1nat } else { 0nat }
    }
}

/// The candidate a target resolves to, among villains only, in spawn
/// order. `last_engaged` is the character that the target's player hit
/// last (`None` when that player has hit nobody or does not exist).
pub open spec fn spec_resolve_enemy_target(target: EnemyTarget, cs: Seq<EnemyCandidate>, last_engaged: Option<u64>, r: Option<usize>) -> bool {
    match target {
        EnemyTarget::NthEnemy(n) => match r {
            Some(i) => i < cs.len() && cs[i as int].side == Side::Villain && villains_before(cs, i as int) == n,
            None => villains_before(cs, cs.len() as int) <= n,
        },
        _ => match r {
            Some(i) => i < cs.len() && matches_target(cs[i as int], target, last_engaged) && forall|j: int|
                0 <= j < i ==> !matches_target(#[trigger] cs[j], target, last_engaged),
            None => forall|j: int| 0 <= j < cs.len() ==> !matches_target(#[trigger] cs[j], target, last_engaged),
        },
    }
}

fn tag_is(tag: &Option<String>, t: &String) -> (r: bool)
    ensures
        r == match tag {
            Some(ct) => ct@ == t@,
            None => false,
        },
{
    match tag {
        Some(ct) => str_eq(ct.as_str(), t.as_str()),
        None => false,
    }
}

/// Resolves an enemy bar's target to a candidate index: the villain that
/// the player hit last, the first villain with the tag, or the n-th villain.
pub fn resolve_enemy_target(target: &EnemyTarget, candidates: &[EnemyCandidate], last_engaged: Option<u64>) -> (r: Option<usize>)
    ensures
        spec_resolve_enemy_target(*target, candidates@, last_engaged, r),
        // A bar only ever follows a villain: the one the player hit last, or
        // one carrying the tag.
        r matches Some(i) ==> i < candidates@.len() && candidates@[i as int].side == Side::Villain,
        r matches Some(i) ==> (target matches EnemyTarget::LastEngagedBy(_) ==> last_engaged == Some(
            candidates@[i as int].entity,
        )),
        r matches Some(i) ==> (target matches EnemyTarget::Tag(t) ==> candidates@[i as int].tag matches Some(ct) && ct@
            == t@),
{
    let mut i: usize = 0;
    let mut seen: usize = 0;
    while i < candidates.len()
        invariant
            i <= candidates.len(),
            seen == villains_before(candidates@, i as int),
            seen <= i,
            forall|j: int| 0 <= j < i ==> !matches_target(#[trigger] candidates@[j], *target, last_engaged),
            *target matches EnemyTarget::NthEnemy(n) ==> seen <= n,
        decreases candidates.len() - i,
    {
        let c = &candidates[i];
        let villain = match c.side {
            Side::Villain => true,
            Side::Hero => false,
        };
        if villain {
            let hit = match target {
                EnemyTarget::LastEngagedBy(_) => match last_engaged {
                    Some(e) => e == c.entity,
                    None => false,
                },
                EnemyTarget::Tag(t) => tag_is(&c.tag, t),
                EnemyTarget::NthEnemy(n) => seen == *n,
            };
            if hit {
                return Some(i);
            }
            seen = seen + 1;
        }
        i = i + 1;
    }
    None
}

/// The sprite that the first entry for `role` in `state_sprites` names, if
/// there is such an entry.
pub open spec fn mapped_sprite(state_sprites: Seq<(Role, u32)>, role: Role) -> Option<u32>
    decreases state_sprites.len(),
{
    if state_sprites.len() == 0 {
        None
    } else {
        match mapped_sprite(state_sprites.drop_last(), role) {
            Some(i) => Some(i),
            None => if state_sprites.last().0 == role {
                Some(state_sprites.last().1)
            } else {
                None
            },
        }
    }
}

/// An entry names the mapped sprite, and with no entry for the role there
/// is none.
proof fn lemma_mapped_sprite(m: Seq<(Role, u32)>, role: Role)
    ensures
        mapped_sprite(m, role) matches Some(i) ==> exists|j: int| 0 <= j < m.len() && #[trigger] m[j] == (role, i),
        (forall|j: int| 0 <= j < m.len() ==> (#[trigger] m[j]).0 != role) ==> mapped_sprite(m, role) is None,
    decreases m.len(),
{
    if m.len() > 0 {
        let p = m.drop_last();
        lemma_mapped_sprite(p, role);
        if let Some(i) = mapped_sprite(p, role) {
            let j = choose|j: int| 0 <= j < p.len() && #[trigger] p[j] == (role, i);
            assert(m[j] == p[j]);
        } else {
            assert(m[m.len() - 1] == m.last());
        }
        if forall|j: int| 0 <= j < m.len() ==> (#[trigger] m[j]).0 != role {
            assert forall|j: int| 0 <= j < p.len() implies (#[trigger] p[j]).0 != role by {
                assert(p[j] == m[j]);
            }
            assert(m[m.len() - 1] == m.last());
        }
    }
}

/// The sprite a player icon shows for a player in `state`: the sprite that
/// `state_sprites` assigns to the state's role when the icon's sprite group
/// holds it (`group` lists the group's sprite indices), and otherwise the
/// icon's default sprite.
pub open spec fn spec_icon_sprite(
    state: CharacterState,
    state_sprites: Seq<(Role, u32)>,
    group: Seq<u32>,
    default_index: u32,
) -> u32 {
    match mapped_sprite(state_sprites, spec_state_role(state)) {
        Some(i) => if group.contains(i) { i } else { default_index },
        None => default_index,
    }
}

/// Chooses the sprite of a player icon (see [`spec_icon_sprite`]).
pub fn icon_sprite_index(state: CharacterState, state_sprites: &[(Role, u32)], group: &[u32], default_index: u32) -> (r: u32)
    ensures
        r == spec_icon_sprite(state, state_sprites@, group@, default_index),
        // The icon shows a sprite of its group that is assigned to the
        // state's role, or else its default sprite.
        r != default_index ==> group@.contains(r) && exists|j: int|
            0 <= j < state_sprites@.len() && #[trigger] state_sprites@[j] == (spec_state_role(state), r),
        (forall|j: int| 0 <= j < state_sprites@.len() ==> (#[trigger] state_sprites@[j]).0 != spec_state_role(state))
            ==> r == default_index,
{
    proof {
        lemma_mapped_sprite(state_sprites@, spec_state_role(state));
    }
    let role = state.to_role();
    let mut found: Option<u32> = None;
    let mut i: usize = 0;
    while i < state_sprites.len()
        invariant
            0 <= i <= state_sprites@.len(),
            found == mapped_sprite(state_sprites@.subrange(0, i as int), role),
        decreases state_sprites.len() - i,
    {
        proof {
            assert(state_sprites@.subrange(0, i + 1).drop_last() =~= state_sprites@.subrange(0, i as int));
        }
        if found.is_none() && state_sprites[i].0 == role {
            found = Some(state_sprites[i].1);
        }
        i = i + 1;
    }
    assert(state_sprites@.subrange(0, state_sprites@.len() as int) =~= state_sprites@);
    match found {
        Some(idx) => {
            let mut j: usize = 0;
            while j < group.len()
                invariant
                    0 <= j <= group@.len(),
                    role == spec_state_role(state),
                    mapped_sprite(state_sprites@, role) == Some(idx),
                    forall|k: int| 0 <= k < j ==> group@[k] != idx,
                decreases group.len() - j,
            {
                if group[j] == idx {
                    proof {
                        lemma_mapped_sprite(state_sprites@, spec_state_role(state));
                    }
                    assert(group@.contains(idx));
                    return idx;
                }
                j = j + 1;
            }
            default_index
        },
        None => default_index,
    }
}

/// Follows the hit points of a player icon's target: records `current` and
/// tells whether they dropped since the last look, which makes the icon
/// shake.
pub fn icon_hp_dropped(last_hp: &mut u32, current: u32) -> (r: bool)
    ensures
        r == (current < *old(last_hp)),
        *final(last_hp) == current,
{
    let dropped = current < *last_hp;
    *last_hp = current;
    dropped
}

} // verus!
