//! Hit resolution on the integer side: hit points, the knockback gauge and
//! the state a hit character goes to.
//!
//! The caller does the geometry (box overlap) and scales damage by the
//! victim's knockback resistance; [`select_victim`] picks the one victim of
//! an attack, and [`resolve_hit`] then applies the damage, wears down the
//! gauge and decides between a plain hit (`Hit`, or `DownHit` for a victim
//! that is down; gauge recovery armed) and a knockback (`KnockbackUp`, gauge
//! and bounces reset, `Dead` ending when the hit was lethal). Airborne hits
//! beyond the juggle limit and down hits beyond the down-hit limit pass
//! through without effect.
use vstd::prelude::*;

use crate::entities::character::CombatParams;
use super::knockback::{Combatant, FinalAction, gauge_of, ms_to_ticks, spec_ms_to_ticks};
use super::state_machine::CharacterState;

verus! {

/// Hit points; a character at zero is dead.
#[derive(Debug, Clone, Copy, PartialEq, Eq, Structural)]
pub struct HitPoints {
    pub current: u32,
    pub max: u32,
}

impl HitPoints {
    /// Full health: `current == max`.
    pub fn new(max: u32) -> (r: Self)
        ensures
            r == (HitPoints { current: max, max }),
    {
        HitPoints { current: max, max }
    }

    /// Takes `amount` off, stopping at zero.
    pub fn damage(&mut self, amount: u32)
        ensures
            final(self).max == old(self).max,
            final(self).current == (if old(self).current > amount { (old(self).current - amount) as u32 } else { 0 }),
    {
        self.current = if self.current > amount { self.current - amount } else { 0 };
    }

    /// Whether the character is dead (no hit points left).
    pub fn is_dead(self) -> (r: bool)
        ensures
            r == (self.current == 0),
    {
        self.current == 0
    }
}

/// Whether the attacker's current attack has already landed its one hit.
#[derive(Debug, Clone, Copy, PartialEq, Eq, Structural)]
pub struct AttackHitConsumed(pub bool);

impl Default for AttackHitConsumed {
    fn default() -> (r: Self)
        ensures
            r == AttackHitConsumed(false),
    {
        AttackHitConsumed(false)
    }
}

/// A character's world-Z thickness, used for hit boxes without their own
/// depth.
#[derive(Debug, Clone, Copy, PartialEq, Eq, Structural)]
pub struct CharacterDepth(pub u32);

/// The attack box is live when the attacker is in `Attack` and the current
/// frame carries attack data.
pub fn is_attack_hit_active(state: CharacterState, frame_has_attack_meta: bool) -> (r: bool)
    ensures
        r == (state == CharacterState::Attack && frame_has_attack_meta),
{
    match state {
        CharacterState::Attack => frame_has_attack_meta,
        _ => false,
    }
}

/// The gauge after a hit: `gauge - knockback_damage`, saturated at the
/// bounds of `i32`.
pub open spec fn worn_gauge(gauge: i32, knockback_damage: i32) -> i32 {
    let g = gauge - knockback_damage;
    if g > i32::MAX { i32::MAX } else if g < i32::MIN { i32::MIN } else { g as i32 }
}

impl Combatant {
    /// Wears the knockback gauge down by `knockback_damage` (saturating) and
    /// tells whether the hit knocks back: the gauge is used up (at or below
    /// zero) or the victim is airborne.
    pub fn take_knockback_damage(&mut self, knockback_damage: i32, airborne: bool) -> (r: bool)
        ensures
            *final(self) == (Combatant { gauge: worn_gauge(old(self).gauge, knockback_damage), ..*old(self) }),
            r == (final(self).gauge <= 0 || airborne),
    {
        let g: i64 = self.gauge as i64 - knockback_damage as i64;
        self.gauge = if g > 2_147_483_647i64 {
            i32::MAX
        } else if g < -2_147_483_648i64 {
            i32::MIN
        } else {
            g as i32
        };
        self.gauge <= 0 || airborne
    }
}

/// Whether a victim in `state` is down: sliding, lying, getting up, or
/// already in its down-hit pose.
pub open spec fn is_down_state(state: CharacterState) -> bool {
    ||| state == CharacterState::Slide
    ||| state == CharacterState::LieDown
    ||| state == CharacterState::Rise
    ||| state == CharacterState::DownHit
}

/// Whether a victim in `state` is down (see [`is_down_state`]).
pub fn is_down(state: CharacterState) -> (r: bool)
    ensures
        r == is_down_state(state),
{
    match state {
        CharacterState::Slide | CharacterState::LieDown | CharacterState::Rise | CharacterState::DownHit => true,
        _ => false,
    }
}

/// Whether a hit passes straight through its victim: an airborne hit once
/// the combo's juggles exceed `max_juggle_count`, or a hit on a victim that
/// is down once the combo's down hits exceed `max_down_hit_count`.
pub open spec fn spec_hit_immune(state: CharacterState, c: Combatant, p: CombatParams, airborne: bool) -> bool {
    ||| airborne && c.juggle_count > p.max_juggle_count
    ||| !airborne && is_down_state(state) && c.down_hit_count > p.max_down_hit_count
}

/// Whether a hit passes straight through its victim (see
/// [`spec_hit_immune`]).
pub fn hit_immune(state: CharacterState, combatant: &Combatant, params: &CombatParams, airborne: bool) -> (r: bool)
    ensures
        r == spec_hit_immune(state, *combatant, *params, airborne),
{
    if airborne {
        combatant.juggle_count > params.max_juggle_count
    } else {
        is_down(state) && combatant.down_hit_count > params.max_down_hit_count
    }
}

/// `n + 1`, staying at `u32::MAX`.
pub open spec fn counted(n: u32) -> u32 {
    if n == u32::MAX { n } else { (n + 1) as u32 }
}

fn count_up(n: u32) -> (r: u32)
    ensures
        r == counted(n),
{
    if n == u32::MAX { n } else { n + 1 }
}

/// The combatant after a knockback starts: gauge full, no recovery pending,
/// all bounces back, the ending set by lethality, and the side it came from.
pub open spec fn knocked_back(c: Combatant, p: CombatParams, lethal: bool, from_behind: bool) -> Combatant {
    Combatant {
        gauge: gauge_of(p.knockback_threshold),
        gauge_recovery_remaining_ticks: 0,
        remaining_bounces: p.bounce_count,
        final_action: if lethal { FinalAction::Dead } else { FinalAction::LieDown },
        hit_from_behind: from_behind,
        ..c
    }
}

/// What a hit did to its victim.
#[derive(Debug, Clone, Copy, PartialEq, Eq, Structural)]
pub struct HitResult {
    /// The victim's state after the hit: `KnockbackUp`, `DownHit` or `Hit`.
    pub state: CharacterState,
    /// Whether the victim is knocked back.
    pub knockback: bool,
    /// Whether the hit took the last hit points.
    pub lethal: bool,
}

/// The effect of a hit on a living victim that the hit does not pass
/// through (see [`resolve_hit`]).
pub open spec fn spec_resolve_hit(
    hp: HitPoints,
    c: Combatant,
    p: CombatParams,
    victim_state: CharacterState,
    damage: u32,
    knockback_damage: i32,
    airborne: bool,
    from_behind: bool,
) -> (HitPoints, Combatant, HitResult) {
    let hp2 = HitPoints { current: if hp.current > damage { (hp.current - damage) as u32 } else { 0 }, ..hp };
    let c1 = Combatant {
        gauge: worn_gauge(c.gauge, knockback_damage),
        juggle_count: if airborne { counted(c.juggle_count) } else { c.juggle_count },
        ..c
    };
    let lethal = hp2.current == 0;
    let knockback = c1.gauge <= 0 || airborne || lethal;
    if knockback {
        (hp2, knocked_back(c1, p, lethal, from_behind), HitResult { state: CharacterState::KnockbackUp, knockback, lethal })
    } else if is_down_state(victim_state) {
        (
            hp2,
            Combatant {
                gauge_recovery_remaining_ticks: spec_ms_to_ticks(p.hit_recovery_ms),
                down_hit_count: counted(c1.down_hit_count),
                ..c1
            },
            HitResult { state: CharacterState::DownHit, knockback, lethal },
        )
    } else {
        (
            hp2,
            Combatant { gauge_recovery_remaining_ticks: spec_ms_to_ticks(p.hit_recovery_ms), ..c1 },
            HitResult { state: CharacterState::Hit, knockback, lethal },
        )
    }
}

/// Applies a hit of `damage` hit points and `knockback_damage` gauge points
/// (both already scaled by the victim's resistance) to a victim in
/// `victim_state`. A dead victim is not hit again, and a hit that the victim
/// is immune to (see [`spec_hit_immune`]) passes through: `None`, nothing
/// changes. Otherwise the hit knocks back when the gauge is used up, the
/// victim is airborne, or the hit is lethal; a knockback resets the gauge
/// and bounces and ends in `Dead` when lethal, while a plain hit arms the
/// gauge recovery timer and puts the victim in `Hit`, or in `DownHit` when
/// it is down. Airborne hits count as juggles, `DownHit` entries as down
/// hits.
pub fn resolve_hit(
    hp: &mut HitPoints,
    combatant: &mut Combatant,
    params: &CombatParams,
    victim_state: CharacterState,
    damage: u32,
    knockback_damage: i32,
    airborne: bool,
    from_behind: bool,
) -> (r: Option<HitResult>)
    ensures
        old(hp).current == 0 || spec_hit_immune(victim_state, *old(combatant), *params, airborne) ==> r is None
            && *final(hp) == *old(hp) && *final(combatant) == *old(combatant),
        !(old(hp).current == 0 || spec_hit_immune(victim_state, *old(combatant), *params, airborne)) ==> r is Some
            && (*final(hp), *final(combatant), r->0) == spec_resolve_hit(
            *old(hp),
            *old(combatant),
            *params,
            victim_state,
            damage,
            knockback_damage,
            airborne,
            from_behind,
        ),
        // Hits that pass through: a juggle past the limit, a down hit past the limit.
        airborne && old(combatant).juggle_count > params.max_juggle_count ==> r is None && *final(hp) == *old(hp)
            && *final(combatant) == *old(combatant),
        !airborne && old(combatant).down_hit_count > params.max_down_hit_count && (victim_state == CharacterState::Slide
            || victim_state == CharacterState::LieDown || victim_state == CharacterState::Rise || victim_state
            == CharacterState::DownHit) ==> r is None && *final(hp) == *old(hp) && *final(combatant) == *old(combatant),
        // A hit that lands takes `damage` hit points, stopping at zero, and is
        // lethal exactly when it takes the last of them.
        r matches Some(h) ==> old(hp).current > 0 && final(hp).max == old(hp).max && final(hp).current == (if old(
            hp,
        ).current > damage {
            old(hp).current - damage
        } else {
            0
        }) && h.lethal == (old(hp).current <= damage),
        // A hit that uses up the gauge (at or below zero), lands in the air or
        // kills knocks back: `KnockbackUp`, a full gauge, all bounces back, and a
        // `Dead` ending exactly when lethal.
        r is Some && (old(combatant).gauge - knockback_damage <= 0 || airborne || old(hp).current <= damage)
            ==> r->0.state == CharacterState::KnockbackUp && r->0.knockback && final(combatant).gauge == (if params.knockback_threshold
            <= i32::MAX {
            params.knockback_threshold as int
        } else {
            i32::MAX as int
        }) && final(combatant).gauge_recovery_remaining_ticks == 0 && final(combatant).remaining_bounces
            == params.bounce_count && final(combatant).hit_from_behind == from_behind && (final(combatant).final_action
            == FinalAction::Dead) == (old(hp).current <= damage),
        // Any other hit that lands only makes the victim flinch: the gauge is
        // worn down, its refill is timed, and the victim goes to `Hit`, or to
        // `DownHit` when it is down, which counts one down hit.
        r is Some && old(combatant).gauge - knockback_damage > 0 && !airborne && old(hp).current > damage
            ==> !r->0.knockback && !r->0.lethal && final(combatant).gauge == (if old(combatant).gauge - knockback_damage
            > i32::MAX {
            i32::MAX as int
        } else {
            old(combatant).gauge - knockback_damage
        }) && final(combatant).gauge_recovery_remaining_ticks == spec_ms_to_ticks(params.hit_recovery_ms)
            && final(combatant).remaining_bounces == old(combatant).remaining_bounces && final(combatant).final_action
            == old(combatant).final_action && final(combatant).juggle_count == old(combatant).juggle_count && (if victim_state
            == CharacterState::Slide || victim_state == CharacterState::LieDown || victim_state == CharacterState::Rise
            || victim_state == CharacterState::DownHit {
            r->0.state == CharacterState::DownHit && final(combatant).down_hit_count == (if old(combatant).down_hit_count
                == u32::MAX {
                u32::MAX as int
            } else {
                old(combatant).down_hit_count + 1
            })
        } else {
            r->0.state == CharacterState::Hit && final(combatant).down_hit_count == old(combatant).down_hit_count
        }),
        // A living victim that is not immune is always hit.
        old(hp).current > 0 && !(airborne && old(combatant).juggle_count > params.max_juggle_count) && !(!airborne
            && old(combatant).down_hit_count > params.max_down_hit_count && (victim_state == CharacterState::Slide
            || victim_state == CharacterState::LieDown || victim_state == CharacterState::Rise || victim_state
            == CharacterState::DownHit)) ==> r is Some,
        // An airborne hit that lands counts one juggle.
        r is Some && airborne ==> final(combatant).juggle_count == (if old(combatant).juggle_count == u32::MAX {
            u32::MAX as int
        } else {
            old(combatant).juggle_count + 1
        }),
{
    if hp.is_dead() || hit_immune(victim_state, combatant, params, airborne) {
        return None;
    }
    hp.damage(damage);
    let lethal = hp.is_dead();
    let gauge_out = combatant.take_knockback_damage(knockback_damage, airborne);
    if airborne {
        combatant.juggle_count = count_up(combatant.juggle_count);
    }
    let knockback = gauge_out || lethal;
    if knockback {
        combatant.gauge = if params.knockback_threshold <= 2_147_483_647u32 {
            params.knockback_threshold as i32
        } else {
            i32::MAX
        };
        combatant.gauge_recovery_remaining_ticks = 0;
        combatant.remaining_bounces = params.bounce_count;
        combatant.final_action = if lethal { FinalAction::Dead } else { FinalAction::LieDown };
        combatant.hit_from_behind = from_behind;
        Some(HitResult { state: CharacterState::KnockbackUp, knockback, lethal })
    } else if is_down(victim_state) {
        combatant.gauge_recovery_remaining_ticks = ms_to_ticks(params.hit_recovery_ms);
        combatant.down_hit_count = count_up(combatant.down_hit_count);
        Some(HitResult { state: CharacterState::DownHit, knockback, lethal })
    } else {
        combatant.gauge_recovery_remaining_ticks = ms_to_ticks(params.hit_recovery_ms);
        Some(HitResult { state: CharacterState::Hit, knockback, lethal })
    }
}

/// A lethal hit always knocks its victim back into a knockout, and a
/// victim once dead stays dead: its hit points never rise again.
pub proof fn lemma_lethal_hit_knocks_out(
    hp: HitPoints,
    c: Combatant,
    p: CombatParams,
    victim_state: CharacterState,
    damage: u32,
    knockback_damage: i32,
    airborne: bool,
    from_behind: bool,
)
    ensures
        ({
            let (hp2, c2, r) = spec_resolve_hit(hp, c, p, victim_state, damage, knockback_damage, airborne, from_behind);
            &&& r.lethal ==> r.knockback && r.state == CharacterState::KnockbackUp && c2.final_action == FinalAction::Dead
            &&& hp2.current <= hp.current
            &&& !r.knockback ==> c2.final_action == c.final_action
        }),
{
}

/// Juggles and down hits are bounded: each airborne hit that lands counts
/// one juggle, each entry into `DownHit` one down hit (both stopping at
/// `u32::MAX`), no other hit touches the counters, and once a counter is past
/// its limit the matching hits pass through. So, until the counters are
/// reset, an airborne victim is hit at most `max_juggle_count + 1` times and
/// a victim that is down enters `DownHit` at most `max_down_hit_count + 1`
/// times.
pub proof fn lemma_combo_limits(
    hp: HitPoints,
    c: Combatant,
    p: CombatParams,
    victim_state: CharacterState,
    damage: u32,
    knockback_damage: i32,
    airborne: bool,
    from_behind: bool,
)
    requires
        !spec_hit_immune(victim_state, c, p, airborne),
    ensures
        ({
            let (hp2, c2, r) = spec_resolve_hit(hp, c, p, victim_state, damage, knockback_damage, airborne, from_behind);
            &&& airborne ==> c2.juggle_count == counted(c.juggle_count) && c2.down_hit_count == c.down_hit_count
            &&& r.state == CharacterState::DownHit ==> c2.down_hit_count == counted(c.down_hit_count)
                && c2.juggle_count == c.juggle_count
            &&& r.state != CharacterState::DownHit && !airborne ==> c2.juggle_count == c.juggle_count
                && c2.down_hit_count == c.down_hit_count
            &&& c2.juggle_count > p.max_juggle_count ==> spec_hit_immune(victim_state, c2, p, true)
            &&& c2.down_hit_count > p.max_down_hit_count && is_down_state(victim_state)
                ==> spec_hit_immune(victim_state, c2, p, false)
        }),
{
}

/// What the attack resolution knows of one candidate victim.
#[derive(Debug, Clone, Copy, PartialEq, Eq, Structural)]
pub struct VictimCandidate {
    /// The candidate has hit points left.
    pub alive: bool,
    /// The attack box overlaps the candidate's body box.
    pub overlaps: bool,
    /// The hit would pass through (see [`hit_immune`]).
    pub immune: bool,
}

/// Whether an attack lands on the candidate.
pub open spec fn hittable(v: VictimCandidate) -> bool {
    v.alive && v.overlaps && !v.immune
}

/// Picks the victim of a live attack: the first candidate that is alive,
/// overlapped and not immune. An attack lands at most one hit: once it has
/// (`consumed`) or while it is not live, nobody is picked. Picking a victim
/// marks the attack consumed; otherwise the mark stays as it was.
pub fn select_victim(attack_live: bool, consumed: &mut AttackHitConsumed, candidates: &[VictimCandidate]) -> (r: Option<usize>)
    ensures
        !attack_live || old(consumed).0 ==> r is None,
        r is None ==> *final(consumed) == *old(consumed),
        attack_live && !old(consumed).0 ==> match r {
            Some(i) => {
                &&& i < candidates@.len()
                &&& hittable(candidates@[i as int])
                &&& forall|j: int| 0 <= j < i ==> !hittable(#[trigger] candidates@[j])
                &&& final(consumed).0
            },
            None => forall|j: int| 0 <= j < candidates@.len() ==> !hittable(#[trigger] candidates@[j]),
        },
{
    if !attack_live || consumed.0 {
        return None;
    }
    let mut i: usize = 0;
    while i < candidates.len()
        invariant
            0 <= i <= candidates@.len(),
            attack_live,
            !old(consumed).0,
            *consumed == *old(consumed),
            forall|j: int| 0 <= j < i ==> !hittable(#[trigger] candidates@[j]),
        decreases candidates.len() - i,
    {
        let v = candidates[i];
        if v.alive && v.overlaps && !v.immune {
            consumed.0 = true;
            return Some(i);
        }
        i = i + 1;
    }
    None
}

} // verus!
