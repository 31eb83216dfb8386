//! The knockback flow of a hit character, as integer state transitions.
//!
//! A knockback goes `KnockbackUp` → (apex) → `KnockbackDown` → (landing) →
//! `BounceUp`/`BounceDown` while bounces are left, then `Slide` → (stopped)
//! → `LieDown` → `Rise` → `Idle`. A fatal knockback (`FinalAction::Dead`)
//! stays in `LieDown` for good. Velocities and positions are integrated by
//! the caller; the functions here take the physical events (apex reached,
//! landed, stopped sliding) as flags and decide the next state, counting
//! time in 60 Hz ticks.
use vstd::prelude::*;

use crate::entities::character::CombatParams;
use super::state_machine::CharacterState;

verus! {

/// How a knockback ends: `LieDown` gets up again, `Dead` stays down (KO).
#[derive(Debug, Clone, Copy, PartialEq, Eq, Hash, Structural)]
pub enum FinalAction {
    LieDown,
    Dead,
}

impl Default for FinalAction {
    fn default() -> (r: Self)
        ensures
            r == FinalAction::LieDown,
    {
        FinalAction::LieDown
    }
}

/// A gauge value for a `u32` threshold: the threshold, saturated at
/// `i32::MAX`.
pub open spec fn gauge_of(threshold: u32) -> i32 {
    if threshold <= i32::MAX { threshold as i32 } else { i32::MAX }
}

fn threshold_gauge(threshold: u32) -> (r: i32)
    ensures
        r == gauge_of(threshold),
{
    if threshold <= 2_147_483_647u32 {
        threshold as i32
    } else {
        i32::MAX
    }
}

/// Milliseconds as 60 Hz ticks, rounded up: `ceil(ms * 60 / 1000)`.
pub open spec fn spec_ms_to_ticks(ms: u32) -> u32 {
    ((ms * 60 + 999) / 1000) as u32
}

/// Converts milliseconds to 60 Hz ticks, rounding up, so that any positive
/// time lasts at least one tick.
pub fn ms_to_ticks(ms: u32) -> (r: u32)
    ensures
        r == spec_ms_to_ticks(ms),
        r == 0 <==> ms == 0,
        r * 1000 >= ms * 60,
        (r as int - 1) * 1000 < ms * 60,
{
    let t: u64 = (ms as u64 * 60 + 999) / 1000;
    assert(t <= 257_698_038);
    t as u32
}

/// The knockback gauge and the counters that a knockback flow uses.
#[derive(Debug, Clone, Copy, PartialEq, Eq, Structural)]
pub struct Combatant {
    /// Knockback gauge; hits wear it down and at zero or below the victim is
    /// knocked back.
    pub gauge: i32,
    /// Ticks until the gauge refills; 0 when no refill is pending.
    pub gauge_recovery_remaining_ticks: u32,
    /// Ticks left in `LieDown` or `Rise`.
    pub stage_timer_ticks: u32,
    /// Bounces left before a landing turns into a slide.
    pub remaining_bounces: u32,
    pub final_action: FinalAction,
    /// Whether the knockback came from behind.
    pub hit_from_behind: bool,
    /// Airborne re-hits in the current combo.
    pub juggle_count: u32,
    /// Hits while down in the current combo.
    pub down_hit_count: u32,
    /// Guard gauge; guarded hits wear it down and at zero or below the guard
    /// breaks.
    pub guard_gauge: i32,
    /// Ticks until the guard gauge refills; 0 when no refill is pending.
    pub guard_recovery_remaining_ticks: u32,
}

/// A combatant that has not been hit yet.
pub open spec fn fresh_combatant(p: CombatParams) -> Combatant {
    Combatant {
        gauge: gauge_of(p.knockback_threshold),
        gauge_recovery_remaining_ticks: 0,
        stage_timer_ticks: 0,
        remaining_bounces: p.bounce_count,
        final_action: FinalAction::LieDown,
        hit_from_behind: false,
        juggle_count: 0,
        down_hit_count: 0,
        guard_gauge: gauge_of(p.guard_break_threshold),
        guard_recovery_remaining_ticks: 0,
    }
}

/// One tick of knockback-gauge recovery: the countdown runs while it is
/// above zero and the gauge refills when it reaches zero.
pub open spec fn spec_recover_gauge(c: Combatant, p: CombatParams) -> Combatant {
    if c.gauge_recovery_remaining_ticks == 0 {
        c
    } else if c.gauge_recovery_remaining_ticks == 1 {
        Combatant { gauge_recovery_remaining_ticks: 0, gauge: gauge_of(p.knockback_threshold), ..c }
    } else {
        Combatant { gauge_recovery_remaining_ticks: (c.gauge_recovery_remaining_ticks - 1) as u32, ..c }
    }
}

/// One tick of guard-gauge recovery, alike.
pub open spec fn spec_recover_guard_gauge(c: Combatant, p: CombatParams) -> Combatant {
    if c.guard_recovery_remaining_ticks == 0 {
        c
    } else if c.guard_recovery_remaining_ticks == 1 {
        Combatant { guard_recovery_remaining_ticks: 0, guard_gauge: gauge_of(p.guard_break_threshold), ..c }
    } else {
        Combatant { guard_recovery_remaining_ticks: (c.guard_recovery_remaining_ticks - 1) as u32, ..c }
    }
}

/// `n` ticks of knockback-gauge recovery.
pub open spec fn recover_gauge_n(c: Combatant, p: CombatParams, n: nat) -> Combatant
    decreases n,
{
    if n == 0 { c } else { recover_gauge_n(spec_recover_gauge(c, p), p, (n - 1) as nat) }
}

impl Combatant {
    /// A combatant with full gauges, `bounce_count` bounces and no pending
    /// timers.
    pub fn new(params: &CombatParams) -> (r: Self)
        ensures
            r == fresh_combatant(*params),
    {
        Combatant {
            gauge: threshold_gauge(params.knockback_threshold),
            gauge_recovery_remaining_ticks: 0,
            stage_timer_ticks: 0,
            remaining_bounces: params.bounce_count,
            final_action: FinalAction::LieDown,
            hit_from_behind: false,
            juggle_count: 0,
            down_hit_count: 0,
            guard_gauge: threshold_gauge(params.guard_break_threshold),
            guard_recovery_remaining_ticks: 0,
        }
    }

    /// One tick of knockback-gauge recovery.
    pub fn recover_gauge(&mut self, params: &CombatParams)
        ensures
            *final(self) == spec_recover_gauge(*old(self), *params),
            // The countdown runs down by one tick while it is above zero, and
            // the gauge is full again on the tick it reaches zero; nothing else
            // changes.
            old(self).gauge_recovery_remaining_ticks == 0 ==> *final(self) == *old(self),
            old(self).gauge_recovery_remaining_ticks > 0 ==> final(self).gauge_recovery_remaining_ticks == old(
                self,
            ).gauge_recovery_remaining_ticks - 1 && final(self).guard_gauge == old(self).guard_gauge
                && final(self).remaining_bounces == old(self).remaining_bounces,
            old(self).gauge_recovery_remaining_ticks > 1 ==> final(self).gauge == old(self).gauge,
            old(self).gauge_recovery_remaining_ticks == 1 ==> final(self).gauge == (if params.knockback_threshold
                <= i32::MAX {
                params.knockback_threshold as int
            } else {
                i32::MAX as int
            }),
    {
        if self.gauge_recovery_remaining_ticks == 0 {
            return;
        }
        self.gauge_recovery_remaining_ticks = self.gauge_recovery_remaining_ticks - 1;
        if self.gauge_recovery_remaining_ticks == 0 {
            self.gauge = threshold_gauge(params.knockback_threshold);
        }
    }

    /// One tick of guard-gauge recovery.
    pub fn recover_guard_gauge(&mut self, params: &CombatParams)
        ensures
            *final(self) == spec_recover_guard_gauge(*old(self), *params),
            // Alike for the guard gauge.
            old(self).guard_recovery_remaining_ticks == 0 ==> *final(self) == *old(self),
            old(self).guard_recovery_remaining_ticks > 0 ==> final(self).guard_recovery_remaining_ticks == old(
                self,
            ).guard_recovery_remaining_ticks - 1 && final(self).gauge == old(self).gauge,
            old(self).guard_recovery_remaining_ticks > 1 ==> final(self).guard_gauge == old(self).guard_gauge,
            old(self).guard_recovery_remaining_ticks == 1 ==> final(self).guard_gauge == (if params.guard_break_threshold
                <= i32::MAX {
                params.guard_break_threshold as int
            } else {
                i32::MAX as int
            }),
    {
        if self.guard_recovery_remaining_ticks == 0 {
            return;
        }
        self.guard_recovery_remaining_ticks = self.guard_recovery_remaining_ticks - 1;
        if self.guard_recovery_remaining_ticks == 0 {
            self.guard_gauge = threshold_gauge(params.guard_break_threshold);
        }
    }
}

/// The knockback gauge stays as it is while the recovery countdown runs and
/// is full again exactly when the countdown ends.
pub proof fn lemma_gauge_refills(c: Combatant, p: CombatParams, n: nat)
    requires
        n <= c.gauge_recovery_remaining_ticks,
    ensures
        n < c.gauge_recovery_remaining_ticks ==> recover_gauge_n(c, p, n)
            == (Combatant { gauge_recovery_remaining_ticks: (c.gauge_recovery_remaining_ticks - n) as u32, ..c }),
        c.gauge_recovery_remaining_ticks > 0 && n == c.gauge_recovery_remaining_ticks ==> recover_gauge_n(c, p, n)
            == (Combatant { gauge_recovery_remaining_ticks: 0, gauge: gauge_of(p.knockback_threshold), ..c }),
    decreases n,
{
    if n > 0 {
        let s = spec_recover_gauge(c, p);
        if c.gauge_recovery_remaining_ticks > 1 {
            lemma_gauge_refills(s, p, (n - 1) as nat);
        } else {
            assert(recover_gauge_n(s, p, 0) == s);
        }
    } else {
        assert(recover_gauge_n(c, p, 0) == c);
    }
}

/// `GuardBreak` lasts one tick and then joins the knockback flow.
pub fn advance_guard_break(state: CharacterState) -> (r: CharacterState)
    ensures
        r == (if state == CharacterState::GuardBreak { CharacterState::KnockbackUp } else { state }),
{
    match state {
        CharacterState::GuardBreak => CharacterState::KnockbackUp,
        _ => state,
    }
}

/// States in which gravity pulls the character down: the airborne
/// knockback stages and jumps.
pub open spec fn spec_applies_gravity(s: CharacterState) -> bool {
    s == CharacterState::KnockbackUp || s == CharacterState::KnockbackDown || s == CharacterState::BounceUp
        || s == CharacterState::BounceDown || s == CharacterState::Jump || s == CharacterState::JumpAttack
}

/// Whether gravity acts on a character in `state`.
pub fn applies_gravity(state: CharacterState) -> (r: bool)
    ensures
        r == spec_applies_gravity(state),
        // Gravity acts in the air: knockback and bounce arcs and jumps.
        r <==> (state == CharacterState::KnockbackUp || state == CharacterState::KnockbackDown || state
            == CharacterState::BounceUp || state == CharacterState::BounceDown || state == CharacterState::Jump || state
            == CharacterState::JumpAttack),
{
    match state {
        CharacterState::KnockbackUp | CharacterState::KnockbackDown | CharacterState::BounceUp
        | CharacterState::BounceDown | CharacterState::Jump | CharacterState::JumpAttack => true,
        _ => false,
    }
}

/// Whether a character in `state` moves by its velocity: the gravity states
/// and `Slide`.
pub fn moves_by_velocity(state: CharacterState) -> (r: bool)
    ensures
        r == (spec_applies_gravity(state) || state == CharacterState::Slide),
{
    match state {
        CharacterState::Slide => true,
        _ => applies_gravity(state),
    }
}

/// At the apex (vertical velocity no longer positive) a rising knockback
/// stage turns into the matching falling one.
pub fn apex_transition(state: CharacterState, at_apex: bool) -> (r: CharacterState)
    ensures
        r == (if !at_apex {
            state
        } else if state == CharacterState::KnockbackUp {
            CharacterState::KnockbackDown
        } else if state == CharacterState::BounceUp {
            CharacterState::BounceDown
        } else {
            state
        }),
{
    if !at_apex {
        return state;
    }
    match state {
        CharacterState::KnockbackUp => CharacterState::KnockbackDown,
        CharacterState::BounceUp => CharacterState::BounceDown,
        _ => state,
    }
}

/// What a landing did.
#[derive(Debug, Clone, Copy, PartialEq, Eq, Structural)]
pub enum Landing {
    /// A falling knockback stage bounced: one bounce used, now `BounceUp`.
    Bounce,
    /// A falling knockback stage with no bounce left: now `Slide`.
    Slide,
    /// A jump touched down: now `Idle`.
    JumpLanding,
}

/// The landing a falling knockback stage or jump makes when it touches the
/// ground (`grounded`: height at or below 0; `falling`: vertical velocity
/// not positive).
pub open spec fn spec_landing(state: CharacterState, c: Combatant, grounded: bool, falling: bool) -> Option<Landing> {
    if (state == CharacterState::KnockbackDown || state == CharacterState::BounceDown) && grounded {
        if c.remaining_bounces > 0 { Some(Landing::Bounce) } else { Some(Landing::Slide) }
    } else if (state == CharacterState::Jump || state == CharacterState::JumpAttack) && grounded && falling {
        Some(Landing::JumpLanding)
    } else {
        None
    }
}

/// Detects a landing and moves to the state after it; a bounce uses one of
/// the remaining bounces. Returns the landing, `None` when there was none.
pub fn detect_landing(state: &mut CharacterState, combatant: &mut Combatant, grounded: bool, falling: bool) -> (r: Option<Landing>)
    ensures
        r == spec_landing(*old(state), *old(combatant), grounded, falling),
        r == Some(Landing::Bounce) ==> *final(state) == CharacterState::BounceUp
            && *final(combatant) == (Combatant { remaining_bounces: (old(combatant).remaining_bounces - 1) as u32, ..*old(combatant) }),
        r == Some(Landing::Slide) ==> *final(state) == CharacterState::Slide && *final(combatant) == *old(combatant),
        r == Some(Landing::JumpLanding) ==> *final(state) == CharacterState::Idle && *final(combatant) == *old(combatant),
        r is None ==> *final(state) == *old(state) && *final(combatant) == *old(combatant),
        // Every landing of a knockback fall uses one bounce while any is left
        // and goes back up; with none left it slides. So a knockback bounces
        // exactly as many times as it started with bounces.
        (*old(state) == CharacterState::KnockbackDown || *old(state) == CharacterState::BounceDown) && grounded
            && old(combatant).remaining_bounces > 0 ==> r == Some(Landing::Bounce) && *final(state)
            == CharacterState::BounceUp && final(combatant).remaining_bounces == old(combatant).remaining_bounces - 1,
        (*old(state) == CharacterState::KnockbackDown || *old(state) == CharacterState::BounceDown) && grounded
            && old(combatant).remaining_bounces == 0 ==> r == Some(Landing::Slide) && *final(state)
            == CharacterState::Slide && *final(combatant) == *old(combatant),
        // A jump ends on the ground when falling.
        (*old(state) == CharacterState::Jump || *old(state) == CharacterState::JumpAttack) && grounded && falling ==> r
            == Some(Landing::JumpLanding) && *final(state) == CharacterState::Idle,
        // Nothing lands in the air.
        !grounded ==> r is None,
{
    let knockback_falling = match *state {
        CharacterState::KnockbackDown | CharacterState::BounceDown => true,
        _ => false,
    };
    let jumping = match *state {
        CharacterState::Jump | CharacterState::JumpAttack => true,
        _ => false,
    };
    if knockback_falling && grounded {
        if combatant.remaining_bounces > 0 {
            combatant.remaining_bounces = combatant.remaining_bounces - 1;
            *state = CharacterState::BounceUp;
            Some(Landing::Bounce)
        } else {
            *state = CharacterState::Slide;
            Some(Landing::Slide)
        }
    } else if jumping && grounded && falling {
        *state = CharacterState::Idle;
        Some(Landing::JumpLanding)
    } else {
        None
    }
}

/// A slide that has come to a stop turns into `LieDown` with the lie-down
/// timer loaded.
pub fn finish_slide(state: &mut CharacterState, combatant: &mut Combatant, params: &CombatParams, stopped: bool)
    ensures
        *old(state) == CharacterState::Slide && stopped ==> *final(state) == CharacterState::LieDown
            && *final(combatant) == (Combatant {
                stage_timer_ticks: spec_ms_to_ticks(params.lie_down_duration_ms),
                ..*old(combatant)
            }),
        !(*old(state) == CharacterState::Slide && stopped) ==> *final(state) == *old(state) && *final(combatant)
            == *old(combatant),
{
    let sliding = match *state {
        CharacterState::Slide => true,
        _ => false,
    };
    if sliding && stopped {
        combatant.stage_timer_ticks = ms_to_ticks(params.lie_down_duration_ms);
        *state = CharacterState::LieDown;
    }
}

/// One tick of a stage timer: the timer counts down if it is running, and
/// the stage ends when the timer is at zero or the animation has finished.
pub open spec fn spec_tick_down(ticks: u32) -> u32 {
    if ticks > 0 { (ticks - 1) as u32 } else { 0 }
}

/// Counts a stage timer down by one tick (not below zero) and tells whether
/// the stage is over: the timer is at zero or the animation has finished.
pub fn tick_down_or_anim_finished(ticks: &mut u32, anim_finished: bool) -> (r: bool)
    ensures
        *final(ticks) == spec_tick_down(*old(ticks)),
        r == (*final(ticks) == 0 || anim_finished),
{
    if *ticks > 0 {
        *ticks = *ticks - 1;
    }
    *ticks == 0 || anim_finished
}

/// The combatant after getting up: gauge full, bounces and combo counters
/// reset, `LieDown` ending and no hit from behind; timers and the guard
/// gauge carried over.
pub open spec fn got_up(c: Combatant, p: CombatParams) -> Combatant {
    Combatant {
        gauge: gauge_of(p.knockback_threshold),
        gauge_recovery_remaining_ticks: 0,
        remaining_bounces: p.bounce_count,
        final_action: FinalAction::LieDown,
        hit_from_behind: false,
        juggle_count: 0,
        down_hit_count: 0,
        ..c
    }
}

/// One tick of the ground stages. `LieDown` goes to `Rise` (loading the
/// rise timer) when its timer runs out or its animation finishes, unless the
/// knockback was fatal; `DownHit` returns to `LieDown` (reloading the
/// lie-down timer) when its animation finishes; `Rise` goes to `Idle` with a
/// fresh combatant when its timer runs out or its animation finishes.
pub open spec fn spec_stage_step(state: CharacterState, c: Combatant, p: CombatParams, finished: bool) -> (
    CharacterState,
    Combatant,
) {
    match state {
        CharacterState::LieDown => if c.final_action == FinalAction::Dead {
            (state, c)
        } else {
            let t = spec_tick_down(c.stage_timer_ticks);
            if t == 0 || finished {
                (CharacterState::Rise, Combatant { stage_timer_ticks: spec_ms_to_ticks(p.rise_duration_ms), ..c })
            } else {
                (state, Combatant { stage_timer_ticks: t, ..c })
            }
        },
        CharacterState::DownHit => if finished {
            (CharacterState::LieDown, Combatant { stage_timer_ticks: spec_ms_to_ticks(p.lie_down_duration_ms), ..c })
        } else {
            (state, c)
        },
        CharacterState::Rise => {
            let t = spec_tick_down(c.stage_timer_ticks);
            let c2 = Combatant { stage_timer_ticks: t, ..c };
            if t == 0 || finished {
                (CharacterState::Idle, got_up(c2, p))
            } else {
                (state, c2)
            }
        },
        _ => (state, c),
    }
}

/// Runs one tick of the ground stages (see [`spec_stage_step`]).
pub fn advance_stage_timer(state: &mut CharacterState, combatant: &mut Combatant, params: &CombatParams, anim_finished: bool)
    ensures
        (*final(state), *final(combatant)) == spec_stage_step(*old(state), *old(combatant), *params, anim_finished),
        // A knock-out lies down for good.
        *old(state) == CharacterState::LieDown && old(combatant).final_action == FinalAction::Dead ==> *final(state)
            == CharacterState::LieDown && *final(combatant) == *old(combatant),
        // Lying down ends when the timer runs out (at most one tick left) or
        // the animation finishes; getting up then runs on the rise timer.
        *old(state) == CharacterState::LieDown && old(combatant).final_action != FinalAction::Dead ==> (if anim_finished
            || old(combatant).stage_timer_ticks <= 1 {
            *final(state) == CharacterState::Rise && final(combatant).stage_timer_ticks == spec_ms_to_ticks(
                params.rise_duration_ms,
            )
        } else {
            *final(state) == CharacterState::LieDown && final(combatant).stage_timer_ticks == old(combatant).stage_timer_ticks
                - 1
        }) && final(combatant).gauge == old(combatant).gauge && final(combatant).final_action == old(
            combatant,
        ).final_action,
        // A down hit lies down again, for a fresh lie-down time, once its
        // animation finishes.
        *old(state) == CharacterState::DownHit ==> (if anim_finished {
            *final(state) == CharacterState::LieDown && final(combatant).stage_timer_ticks == spec_ms_to_ticks(
                params.lie_down_duration_ms,
            )
        } else {
            *final(state) == CharacterState::DownHit && *final(combatant) == *old(combatant)
        }),
        // Getting up ends in `Idle` with the combo over: full gauge, all bounces,
        // no knock-out, no juggles or down hits counted.
        *old(state) == CharacterState::Rise && (anim_finished || old(combatant).stage_timer_ticks <= 1) ==> *final(state)
            == CharacterState::Idle && final(combatant).gauge == (if params.knockback_threshold <= i32::MAX {
            params.knockback_threshold as int
        } else {
            i32::MAX as int
        }) && final(combatant).gauge_recovery_remaining_ticks == 0 && final(combatant).remaining_bounces
            == params.bounce_count && final(combatant).final_action == FinalAction::LieDown
            && final(combatant).hit_from_behind == false && final(combatant).juggle_count == 0 && final(combatant).down_hit_count == 0,
        *old(state) == CharacterState::Rise && !anim_finished && old(combatant).stage_timer_ticks > 1 ==> *final(state)
            == CharacterState::Rise && final(combatant).stage_timer_ticks == old(combatant).stage_timer_ticks - 1,
        // Other states are left alone.
        *old(state) != CharacterState::LieDown && *old(state) != CharacterState::DownHit && *old(state)
            != CharacterState::Rise ==> *final(state) == *old(state) && *final(combatant) == *old(combatant),
{
    match *state {
        CharacterState::LieDown => {
            if combatant.final_action == FinalAction::Dead {
                return;
            }
            let expired = tick_down_or_anim_finished(&mut combatant.stage_timer_ticks, anim_finished);
            if expired {
                combatant.stage_timer_ticks = ms_to_ticks(params.rise_duration_ms);
                *state = CharacterState::Rise;
            }
        },
        CharacterState::DownHit => {
            if anim_finished {
                combatant.stage_timer_ticks = ms_to_ticks(params.lie_down_duration_ms);
                *state = CharacterState::LieDown;
            }
        },
        CharacterState::Rise => {
            let expired = tick_down_or_anim_finished(&mut combatant.stage_timer_ticks, anim_finished);
            if expired {
                combatant.gauge = threshold_gauge(params.knockback_threshold);
                combatant.gauge_recovery_remaining_ticks = 0;
                combatant.remaining_bounces = params.bounce_count;
                combatant.final_action = FinalAction::LieDown;
                combatant.hit_from_behind = false;
                combatant.juggle_count = 0;
                combatant.down_hit_count = 0;
                *state = CharacterState::Idle;
            }
        },
        _ => {},
    }
}

/// The ground stages after one tick per entry of `finished` (whether the
/// animation had finished at that tick).
pub open spec fn stage_steps(state: CharacterState, c: Combatant, p: CombatParams, finished: Seq<bool>) -> (
    CharacterState,
    Combatant,
)
    decreases finished.len(),
{
    if finished.len() == 0 {
        (state, c)
    } else {
        let (s2, c2) = spec_stage_step(state, c, p, finished[0]);
        stage_steps(s2, c2, p, finished.drop_first())
    }
}

/// A fatal knockback that has come to lie down stays down, whatever the
/// animation does.
pub proof fn lemma_ko_is_permanent(c: Combatant, p: CombatParams, finished: Seq<bool>)
    requires
        c.final_action == FinalAction::Dead,
    ensures
        stage_steps(CharacterState::LieDown, c, p, finished) == (CharacterState::LieDown, c),
    decreases finished.len(),
{
    if finished.len() > 0 {
        lemma_ko_is_permanent(c, p, finished.drop_first());
    }
}

/// A character that is not knocked out gets up: with its animation still
/// playing, `LieDown` turns into `Rise` after as many ticks as its timer
/// holds (one tick when the timer is empty), and not earlier.
pub proof fn lemma_lie_down_rises(c: Combatant, p: CombatParams, n: nat)
    requires
        c.final_action == FinalAction::LieDown,
        n <= (if c.stage_timer_ticks == 0 { 1 } else { c.stage_timer_ticks as int }),
    ensures
        ({
            let (s, c2) = stage_steps(CharacterState::LieDown, c, p, Seq::new(n, |i: int| false));
            &&& n < (if c.stage_timer_ticks == 0 { 1 } else { c.stage_timer_ticks as int }) ==> s
                == CharacterState::LieDown && c2 == (Combatant { stage_timer_ticks: (c.stage_timer_ticks - n) as u32, ..c })
            &&& n == (if c.stage_timer_ticks == 0 { 1 } else { c.stage_timer_ticks as int }) ==> s
                == CharacterState::Rise && c2 == (Combatant { stage_timer_ticks: spec_ms_to_ticks(p.rise_duration_ms), ..c })
        }),
    decreases n,
{
    let fs = Seq::new(n, |i: int| false);
    if n > 0 {
        let (s1, c1) = spec_stage_step(CharacterState::LieDown, c, p, false);
        assert(fs[0] == false);
        assert(fs.drop_first() =~= Seq::new((n - 1) as nat, |i: int| false));
        assert(stage_steps(CharacterState::LieDown, c, p, fs) == stage_steps(s1, c1, p, fs.drop_first()));
        if c.stage_timer_ticks > 1 {
            assert(s1 == CharacterState::LieDown);
            assert(c1 == (Combatant { stage_timer_ticks: (c.stage_timer_ticks - 1) as u32, ..c }));
            lemma_lie_down_rises(c1, p, (n - 1) as nat);
        } else {
            assert(s1 == CharacterState::Rise);
            assert(n == 1);
            assert(fs.drop_first().len() == 0);
            assert(stage_steps(s1, c1, p, fs.drop_first()) == (s1, c1));
        }
    } else {
        assert(stage_steps(CharacterState::LieDown, c, p, fs) == (CharacterState::LieDown, c));
        assert((Combatant { stage_timer_ticks: (c.stage_timer_ticks - n) as u32, ..c }) == c);
    }
}

/// Getting up restores the combatant to its state before the knockback, but
/// for the stage timer and the guard gauge.
pub proof fn lemma_rise_resets(c: Combatant, p: CombatParams, finished: bool)
    requires
        spec_stage_step(CharacterState::Rise, c, p, finished).0 == CharacterState::Idle,
    ensures
        ({
            let c2 = spec_stage_step(CharacterState::Rise, c, p, finished).1;
            c2 == (Combatant {
                stage_timer_ticks: c2.stage_timer_ticks,
                guard_gauge: c.guard_gauge,
                guard_recovery_remaining_ticks: c.guard_recovery_remaining_ticks,
                ..fresh_combatant(p)
            })
        }),
{
}

} // verus!
