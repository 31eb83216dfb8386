//! Decision logic of the AI brains and of the command actuator.
//!
//! A brain decides at most once every `decision_interval_ticks + 1` ticks.
//! It keeps an engagement state (`Idle` → `Chase` → `Attack`) with
//! hysteresis: it enters on the inner distance threshold and leaves on the
//! outer one, stays at least `min_dwell_ticks` in a state before leaving it
//! (the first move out of `Idle` excepted), and after entering `Attack`
//! holds off further strikes for `attack_cooldown_ticks`. Distances are
//! measured by the caller and handed in as [`RangeBands`]; movement vectors
//! are built by the caller from the returned intent.
use vstd::prelude::*;

use super::state_machine::CharacterState;
use super::state_machine::spec_is_locked;

verus! {

/// Engagement of a brain with its target.
#[derive(Debug, Clone, Copy, PartialEq, Eq, Hash, Structural)]
pub enum EngagementState {
    /// No target in range.
    Idle,
    /// Closing in on the target.
    Chase,
    /// In range and striking.
    Attack,
}

impl Default for EngagementState {
    fn default() -> (r: Self)
        ensures
            r == EngagementState::Idle,
    {
        EngagementState::Idle
    }
}

/// Counters every brain keeps.
#[derive(Debug, Clone, Copy, PartialEq, Eq, Structural)]
pub struct BrainCounters {
    /// Ticks since the current state was entered.
    pub frames_since_state_entered: u32,
    /// Ticks to wait before the next decision.
    pub frames_until_next_decision: u32,
    /// Ticks during which no new strike is made.
    pub attack_cooldown_remaining: u32,
}

impl Default for BrainCounters {
    fn default() -> (r: Self)
        ensures
            r == (BrainCounters { frames_since_state_entered: 0, frames_until_next_decision: 0, attack_cooldown_remaining: 0 }),
    {
        BrainCounters { frames_since_state_entered: 0, frames_until_next_decision: 0, attack_cooldown_remaining: 0 }
    }
}

/// The counters after one tick, and whether the brain decides on this tick:
/// time in state goes up (saturating), the cooldown goes down, and the wait
/// for the next decision goes down or, when it is over, is reloaded with
/// `interval` and the brain decides.
pub open spec fn spec_tick_counters(c: BrainCounters, interval: u32) -> (BrainCounters, bool) {
    let since = if c.frames_since_state_entered < u32::MAX { (c.frames_since_state_entered + 1) as u32 } else { u32::MAX };
    let cd = if c.attack_cooldown_remaining > 0 { (c.attack_cooldown_remaining - 1) as u32 } else { 0 };
    if c.frames_until_next_decision > 0 {
        (
            BrainCounters {
                frames_since_state_entered: since,
                frames_until_next_decision: (c.frames_until_next_decision - 1) as u32,
                attack_cooldown_remaining: cd,
            },
            false,
        )
    } else {
        (BrainCounters { frames_since_state_entered: since, frames_until_next_decision: interval, attack_cooldown_remaining: cd }, true)
    }
}

/// Advances the counters by one tick and tells whether to decide now.
pub fn tick_counters(counters: &mut BrainCounters, decision_interval_ticks: u32) -> (r: bool)
    ensures
        (*final(counters), r) == spec_tick_counters(*old(counters), decision_interval_ticks),
        // The brain decides exactly when its wait is over, and then waits the
        // full interval again.
        r == (old(counters).frames_until_next_decision == 0),
        r ==> final(counters).frames_until_next_decision == decision_interval_ticks,
        !r ==> final(counters).frames_until_next_decision == old(counters).frames_until_next_decision - 1,
        // Time in state counts up (stopping at the top), the cooldown down
        // (stopping at zero).
        final(counters).frames_since_state_entered == (if old(counters).frames_since_state_entered == u32::MAX {
            u32::MAX as int
        } else {
            old(counters).frames_since_state_entered + 1
        }),
        final(counters).attack_cooldown_remaining == (if old(counters).attack_cooldown_remaining == 0 {
            0
        } else {
            old(counters).attack_cooldown_remaining - 1
        }),
{
    counters.frames_since_state_entered = if counters.frames_since_state_entered < u32::MAX {
        counters.frames_since_state_entered + 1
    } else {
        u32::MAX
    };
    if counters.attack_cooldown_remaining > 0 {
        counters.attack_cooldown_remaining = counters.attack_cooldown_remaining - 1;
    }
    if counters.frames_until_next_decision > 0 {
        counters.frames_until_next_decision = counters.frames_until_next_decision - 1;
        return false;
    }
    counters.frames_until_next_decision = decision_interval_ticks;
    true
}

/// `n` ticks of the counters: the counters after them and how many of them
/// decided.
pub open spec fn tick_counters_n(c: BrainCounters, interval: u32, n: nat) -> (BrainCounters, nat)
    decreases n,
{
    if n == 0 {
        (c, 0)
    } else {
        let (c1, d) = spec_tick_counters(c, interval);
        let (c2, k) = tick_counters_n(c1, interval, (n - 1) as nat);
        (c2, k + if d { 1nat } else { 0nat })
    }
}

/// A brain whose decision wait has just run out decides once and then not
/// again for `interval` ticks: over `interval + 1` ticks it decides exactly
/// once, and is ready to decide again afterwards.
pub proof fn lemma_decision_period(c: BrainCounters, interval: u32)
    requires
        c.frames_until_next_decision == 0,
    ensures
        tick_counters_n(c, interval, interval as nat + 1).1 == 1,
        tick_counters_n(c, interval, interval as nat + 1).0.frames_until_next_decision == 0,
{
    let (c1, d) = spec_tick_counters(c, interval);
    assert(d && c1.frames_until_next_decision == interval);
    lemma_wait_runs_down(c1, interval, interval as nat);
}

proof fn lemma_wait_runs_down(c: BrainCounters, interval: u32, n: nat)
    requires
        n <= c.frames_until_next_decision,
    ensures
        tick_counters_n(c, interval, n).1 == 0,
        tick_counters_n(c, interval, n).0.frames_until_next_decision == c.frames_until_next_decision - n,
    decreases n,
{
    if n > 0 {
        let (c1, d) = spec_tick_counters(c, interval);
        lemma_wait_runs_down(c1, interval, (n - 1) as nat);
    }
}

/// Arms the cooldown on the tick that enters `Attack`, so that this tick's
/// strike goes out; on other ticks a running cooldown suppresses the strike.
pub fn apply_attack_cooldown(counters: &mut BrainCounters, attack: &mut bool, entering_attack: bool, attack_cooldown_ticks: u32)
    ensures
        entering_attack ==> *final(counters) == (BrainCounters { attack_cooldown_remaining: attack_cooldown_ticks, ..*old(counters) })
            && *final(attack) == *old(attack),
        !entering_attack ==> *final(counters) == *old(counters) && *final(attack) == (*old(attack)
            && old(counters).attack_cooldown_remaining == 0),
{
    if entering_attack {
        counters.attack_cooldown_remaining = attack_cooldown_ticks;
    } else if counters.attack_cooldown_remaining > 0 {
        *attack = false;
    }
}

/// Where the target is relative to the four engagement distances; each flag
/// says that the distance is at most that threshold.
#[derive(Debug, Clone, Copy, PartialEq, Eq, Structural)]
pub struct RangeBands {
    pub within_chase_enter: bool,
    pub within_chase_exit: bool,
    pub within_attack_enter: bool,
    pub within_attack_exit: bool,
}

/// The next engagement state. From `Idle`: stay out of chase range, strike
/// straight away in attack range with no cooldown, else chase. From `Chase`
/// (once the dwell time is over): give up past the chase exit distance,
/// strike in attack range with no cooldown, else keep chasing. From
/// `Attack` (once the dwell time is over): back to chasing while the
/// cooldown runs or past the attack exit distance.
pub open spec fn spec_decide_engagement(current: EngagementState, b: RangeBands, can_transition: bool, cooldown: u32) -> EngagementState {
    match current {
        EngagementState::Idle => if !b.within_chase_enter {
            EngagementState::Idle
        } else if b.within_attack_enter && cooldown == 0 {
            EngagementState::Attack
        } else {
            EngagementState::Chase
        },
        EngagementState::Chase => if !can_transition {
            EngagementState::Chase
        } else if !b.within_chase_exit {
            EngagementState::Idle
        } else if b.within_attack_enter && cooldown == 0 {
            EngagementState::Attack
        } else {
            EngagementState::Chase
        },
        EngagementState::Attack => if !can_transition {
            EngagementState::Attack
        } else if cooldown > 0 || !b.within_attack_exit {
            EngagementState::Chase
        } else {
            EngagementState::Attack
        },
    }
}

/// Decides the next engagement state (see [`spec_decide_engagement`]).
pub fn decide_engagement(current: EngagementState, bands: RangeBands, can_transition: bool, cooldown: u32) -> (r: EngagementState)
    ensures
        r == spec_decide_engagement(current, bands, can_transition, cooldown),
        // Until the dwell time is over, `Chase` and `Attack` hold.
        current != EngagementState::Idle && !can_transition ==> r == current,
        // `Attack` is entered only in attack range and with no cooldown running.
        r == EngagementState::Attack && current != EngagementState::Attack ==> bands.within_attack_enter && cooldown
            == 0,
        // From `Idle`: out of chase range nothing happens; in it, strike at
        // once when in attack range without cooldown, else chase.
        current == EngagementState::Idle ==> r == (if !bands.within_chase_enter {
            EngagementState::Idle
        } else if bands.within_attack_enter && cooldown == 0 {
            EngagementState::Attack
        } else {
            EngagementState::Chase
        }),
        // A chase (once free to change) gives up only past the chase exit
        // distance, and strikes in attack range with no cooldown.
        current == EngagementState::Chase && can_transition ==> (r == EngagementState::Idle <==> !bands.within_chase_exit)
            && (bands.within_chase_exit && bands.within_attack_enter && cooldown == 0 ==> r == EngagementState::Attack)
            && (bands.within_chase_exit && !(bands.within_attack_enter && cooldown == 0) ==> r == EngagementState::Chase),
        // An attack (once free to change) stays while in attack-exit range with
        // no cooldown, and otherwise goes back to chasing, never straight to
        // `Idle`.
        current == EngagementState::Attack && can_transition ==> r == (if cooldown == 0 && bands.within_attack_exit {
            EngagementState::Attack
        } else {
            EngagementState::Chase
        }),
{
    match current {
        EngagementState::Idle => {
            if !bands.within_chase_enter {
                EngagementState::Idle
            } else if bands.within_attack_enter && cooldown == 0 {
                EngagementState::Attack
            } else {
                EngagementState::Chase
            }
        },
        EngagementState::Chase => {
            if !can_transition {
                EngagementState::Chase
            } else if !bands.within_chase_exit {
                EngagementState::Idle
            } else if bands.within_attack_enter && cooldown == 0 {
                EngagementState::Attack
            } else {
                EngagementState::Chase
            }
        },
        EngagementState::Attack => {
            if !can_transition {
                EngagementState::Attack
            } else if cooldown > 0 || !bands.within_attack_exit {
                EngagementState::Chase
            } else {
                EngagementState::Attack
            }
        },
    }
}

/// What a brain wants its character to do until its next decision.
#[derive(Debug, Clone, Copy, PartialEq, Eq, Structural)]
pub enum EngagementIntent {
    /// Stand still.
    Stop,
    /// Move toward the target.
    Chase,
    /// Strike.
    Strike,
}

/// The intent of an engagement state: `Attack` strikes unless the strike
/// is suppressed.
pub open spec fn intent_of(s: EngagementState, strike: bool) -> EngagementIntent {
    match s {
        EngagementState::Idle => EngagementIntent::Stop,
        EngagementState::Chase => EngagementIntent::Chase,
        EngagementState::Attack => if strike { EngagementIntent::Strike } else { EngagementIntent::Stop },
    }
}

/// Decision of a brain that has a target: the next state, the counters
/// after it, and the intent.
pub open spec fn spec_engage(s: EngagementState, c: BrainCounters, b: RangeBands, min_dwell: u32, cooldown_ticks: u32) -> (
    EngagementState,
    BrainCounters,
    EngagementIntent,
) {
    let can = c.frames_since_state_entered >= min_dwell;
    let next = spec_decide_engagement(s, b, can, c.attack_cooldown_remaining);
    let entering = next == EngagementState::Attack && s != EngagementState::Attack;
    let c1 = if next != s { BrainCounters { frames_since_state_entered: 0, ..c } } else { c };
    if entering {
        (next, BrainCounters { attack_cooldown_remaining: cooldown_ticks, ..c1 }, intent_of(next, true))
    } else {
        (next, c1, intent_of(next, c1.attack_cooldown_remaining == 0))
    }
}

/// One tick of a melee or bot brain: the counters tick; on a decision tick
/// a brain without target falls back to `Idle` and stops, and a brain with
/// a target takes the engagement decision. `None` when the brain does not
/// decide on this tick (the previous intent stands).
pub open spec fn spec_engagement_step(
    s: EngagementState,
    c: BrainCounters,
    target: Option<RangeBands>,
    interval: u32,
    min_dwell: u32,
    cooldown_ticks: u32,
) -> (EngagementState, BrainCounters, Option<EngagementIntent>) {
    let (c1, decide) = spec_tick_counters(c, interval);
    if !decide {
        (s, c1, None)
    } else {
        match target {
            None => if s != EngagementState::Idle {
                (EngagementState::Idle, BrainCounters { frames_since_state_entered: 0, ..c1 }, Some(EngagementIntent::Stop))
            } else {
                (s, c1, Some(EngagementIntent::Stop))
            },
            Some(b) => {
                let (s2, c2, i) = spec_engage(s, c1, b, min_dwell, cooldown_ticks);
                (s2, c2, Some(i))
            },
        }
    }
}

fn engage(state: &mut EngagementState, counters: &mut BrainCounters, bands: RangeBands, min_dwell_ticks: u32, attack_cooldown_ticks: u32) -> (r: EngagementIntent)
    ensures
        (*final(state), *final(counters), r) == spec_engage(*old(state), *old(counters), bands, min_dwell_ticks, attack_cooldown_ticks),
{
    let can_transition = counters.frames_since_state_entered >= min_dwell_ticks;
    let next = decide_engagement(*state, bands, can_transition, counters.attack_cooldown_remaining);
    let entering_attack = next == EngagementState::Attack && *state != EngagementState::Attack;
    if next != *state {
        *state = next;
        counters.frames_since_state_entered = 0;
    }
    let mut strike = match *state {
        EngagementState::Attack => true,
        _ => false,
    };
    apply_attack_cooldown(counters, &mut strike, entering_attack, attack_cooldown_ticks);
    match *state {
        EngagementState::Idle => EngagementIntent::Stop,
        EngagementState::Chase => EngagementIntent::Chase,
        EngagementState::Attack => if strike {
            EngagementIntent::Strike
        } else {
            EngagementIntent::Stop
        },
    }
}

/// Runs one tick of a melee (villain) or bot (automated hero) brain; see
/// [`spec_engagement_step`]. `target` is `None` when there is no target.
pub fn engagement_step(
    state: &mut EngagementState,
    counters: &mut BrainCounters,
    target: Option<RangeBands>,
    decision_interval_ticks: u32,
    min_dwell_ticks: u32,
    attack_cooldown_ticks: u32,
) -> (r: Option<EngagementIntent>)
    ensures
        (*final(state), *final(counters), r) == spec_engagement_step(
            *old(state),
            *old(counters),
            target,
            decision_interval_ticks,
            min_dwell_ticks,
            attack_cooldown_ticks,
        ),
        // The tick that enters `Attack` strikes and arms the cooldown.
        *old(state) != EngagementState::Attack && *final(state) == EngagementState::Attack ==> r == Some(
            EngagementIntent::Strike,
        ) && final(counters).attack_cooldown_remaining == attack_cooldown_ticks,
        // Staying in `Attack`, the brain strikes exactly when no cooldown runs.
        *old(state) == EngagementState::Attack && *final(state) == EngagementState::Attack && r is Some ==> r == Some(
            if final(counters).attack_cooldown_remaining == 0 {
                EngagementIntent::Strike
            } else {
                EngagementIntent::Stop
            },
        ),
        // Only the `Attack` state strikes.
        r == Some(EngagementIntent::Strike) ==> *final(state) == EngagementState::Attack,
{
    if !tick_counters(counters, decision_interval_ticks) {
        return None;
    }
    match target {
        None => {
            if *state != EngagementState::Idle {
                *state = EngagementState::Idle;
                counters.frames_since_state_entered = 0;
            }
            Some(EngagementIntent::Stop)
        },
        Some(bands) => Some(engage(state, counters, bands, min_dwell_ticks, attack_cooldown_ticks)),
    }
}

/// A brain strikes only on the tick it enters `Attack` (which arms the
/// cooldown) or when no cooldown is running; and it leaves `Chase` or
/// `Attack` for another engagement state only after `min_dwell_ticks` in it,
/// unless its target is gone.
pub proof fn lemma_strikes_respect_cooldown_and_dwell(
    s: EngagementState,
    c: BrainCounters,
    target: Option<RangeBands>,
    interval: u32,
    min_dwell: u32,
    cooldown_ticks: u32,
)
    ensures
        ({
            let (s2, c2, i) = spec_engagement_step(s, c, target, interval, min_dwell, cooldown_ticks);
            let c1 = spec_tick_counters(c, interval).0;
            &&& i == Some(EngagementIntent::Strike) ==> s2 == EngagementState::Attack && ((s != EngagementState::Attack
                && c2.attack_cooldown_remaining == cooldown_ticks) || c2.attack_cooldown_remaining == 0)
            &&& target is Some && s != EngagementState::Idle && c1.frames_since_state_entered < min_dwell ==> s2 == s
        }),
{
}

/// A helper brain's state: following the player, or engaging an enemy.
#[derive(Debug, Clone, Copy, PartialEq, Eq, Hash, Structural)]
pub enum AllyState {
    Follow,
    Chase,
    Attack,
}

impl Default for AllyState {
    fn default() -> (r: Self)
        ensures
            r == AllyState::Follow,
    {
        AllyState::Follow
    }
}

pub open spec fn spec_ally_to_engagement(s: AllyState) -> EngagementState {
    match s {
        AllyState::Follow => EngagementState::Idle,
        AllyState::Chase => EngagementState::Chase,
        AllyState::Attack => EngagementState::Attack,
    }
}

pub open spec fn spec_ally_from_engagement(e: EngagementState) -> AllyState {
    match e {
        EngagementState::Idle | EngagementState::Chase => AllyState::Chase,
        EngagementState::Attack => AllyState::Attack,
    }
}

impl AllyState {
    /// The engagement state this ally state stands for; following counts
    /// as not engaged.
    pub fn to_engagement(self) -> (r: EngagementState)
        ensures
            r == spec_ally_to_engagement(self),
    {
        match self {
            AllyState::Follow => EngagementState::Idle,
            AllyState::Chase => EngagementState::Chase,
            AllyState::Attack => EngagementState::Attack,
        }
    }

    /// The ally state for an engagement decision taken with an enemy in
    /// range: `Attack` stays `Attack`, anything else means chasing.
    pub fn from_engagement(eng: EngagementState) -> (r: Self)
        ensures
            r == spec_ally_from_engagement(eng),
    {
        match eng {
            EngagementState::Idle | EngagementState::Chase => AllyState::Chase,
            EngagementState::Attack => AllyState::Attack,
        }
    }
}

/// The nearest enemy as a helper sees it: whether it is the enemy already
/// targeted, and where it is relative to the engagement distances.
#[derive(Debug, Clone, Copy, PartialEq, Eq, Structural)]
pub struct EnemySighting {
    pub is_current_target: bool,
    pub bands: RangeBands,
}

/// Whom a helper targets after its decision.
#[derive(Debug, Clone, Copy, PartialEq, Eq, Structural)]
pub enum AllyTarget {
    /// The sighted enemy.
    Enemy,
    /// The nearest human-driven hero.
    Player,
    /// Nobody.
    Nothing,
}

/// What a helper wants to do until its next decision.
#[derive(Debug, Clone, Copy, PartialEq, Eq, Structural)]
pub enum AllyIntent {
    Stop,
    /// Move toward the enemy.
    Chase,
    Strike,
    /// Move toward the player.
    Follow,
}

/// One tick of a helper brain. On a decision tick it engages the nearest
/// enemy when that enemy is within chase-enter range, or within chase-exit
/// range while already being engaged; otherwise it drops back to following
/// (once its dwell time is over) and follows the player when
/// `player_should_follow` says so (`None`: no player, stand still).
pub open spec fn spec_ally_step(
    s: AllyState,
    c: BrainCounters,
    enemy: Option<EnemySighting>,
    player_should_follow: Option<bool>,
    interval: u32,
    min_dwell: u32,
    cooldown_ticks: u32,
) -> (AllyState, BrainCounters, Option<(AllyTarget, AllyIntent)>) {
    let (c1, decide) = spec_tick_counters(c, interval);
    if !decide {
        (s, c1, None)
    } else {
        let engaged = match enemy {
            Some(e) => {
                let already = (s == AllyState::Chase || s == AllyState::Attack) && e.is_current_target;
                if already { e.bands.within_chase_exit } else { e.bands.within_chase_enter }
            },
            None => false,
        };
        if engaged {
            let b = enemy->0.bands;
            let can = c1.frames_since_state_entered >= min_dwell;
            let next = spec_ally_from_engagement(
                spec_decide_engagement(spec_ally_to_engagement(s), b, can, c1.attack_cooldown_remaining),
            );
            let entering = next == AllyState::Attack && s != AllyState::Attack;
            let c2 = if next != s { BrainCounters { frames_since_state_entered: 0, ..c1 } } else { c1 };
            let c3 = if entering { BrainCounters { attack_cooldown_remaining: cooldown_ticks, ..c2 } } else { c2 };
            let strike = next == AllyState::Attack && (entering || c2.attack_cooldown_remaining == 0);
            let intent = if next == AllyState::Chase {
                AllyIntent::Chase
            } else if strike {
                AllyIntent::Strike
            } else {
                AllyIntent::Stop
            };
            (next, c3, Some((AllyTarget::Enemy, intent)))
        } else {
            let can = c1.frames_since_state_entered >= min_dwell;
            let (s2, c2) = if s != AllyState::Follow && can {
                (AllyState::Follow, BrainCounters { frames_since_state_entered: 0, ..c1 })
            } else {
                (s, c1)
            };
            match player_should_follow {
                None => (s2, c2, Some((AllyTarget::Nothing, AllyIntent::Stop))),
                Some(f) => (s2, c2, Some((AllyTarget::Player, if f { AllyIntent::Follow } else { AllyIntent::Stop }))),
            }
        }
    }
}

/// Runs one tick of a helper brain (see [`spec_ally_step`]); `None` when it
/// does not decide on this tick.
pub fn ally_step(
    state: &mut AllyState,
    counters: &mut BrainCounters,
    enemy: Option<EnemySighting>,
    player_should_follow: Option<bool>,
    decision_interval_ticks: u32,
    min_dwell_ticks: u32,
    attack_cooldown_ticks: u32,
) -> (r: Option<(AllyTarget, AllyIntent)>)
    ensures
        (*final(state), *final(counters), r) == spec_ally_step(
            *old(state),
            *old(counters),
            enemy,
            player_should_follow,
            decision_interval_ticks,
            min_dwell_ticks,
            attack_cooldown_ticks,
        ),
        // The tick that enters `Attack` strikes the enemy and arms the cooldown.
        *old(state) != AllyState::Attack && *final(state) == AllyState::Attack ==> r == Some(
            (AllyTarget::Enemy, AllyIntent::Strike),
        ) && final(counters).attack_cooldown_remaining == attack_cooldown_ticks,
        // Staying in `Attack`, the helper strikes exactly when no cooldown runs.
        r matches Some((AllyTarget::Enemy, i)) ==> (*old(state) == AllyState::Attack && *final(state)
            == AllyState::Attack ==> i == (if final(counters).attack_cooldown_remaining == 0 {
            AllyIntent::Strike
        } else {
            AllyIntent::Stop
        })),
        // Only the `Attack` state strikes, and only the enemy.
        r matches Some((t, AllyIntent::Strike)) ==> *final(state) == AllyState::Attack && t == AllyTarget::Enemy,
{
    if !tick_counters(counters, decision_interval_ticks) {
        return None;
    }
    let can_transition = counters.frames_since_state_entered >= min_dwell_ticks;
    let engaged = match enemy {
        Some(e) => {
            let already = match *state {
                AllyState::Chase | AllyState::Attack => e.is_current_target,
                AllyState::Follow => false,
            };
            if already {
                e.bands.within_chase_exit
            } else {
                e.bands.within_chase_enter
            }
        },
        None => false,
    };
    if engaged {
        let bands = match enemy {
            Some(e) => e.bands,
            None => RangeBands { within_chase_enter: false, within_chase_exit: false, within_attack_enter: false, within_attack_exit: false },
        };
        let next_eng = decide_engagement(state.to_engagement(), bands, can_transition, counters.attack_cooldown_remaining);
        let next = AllyState::from_engagement(next_eng);
        let entering_attack = next == AllyState::Attack && *state != AllyState::Attack;
        if next != *state {
            *state = next;
            counters.frames_since_state_entered = 0;
        }
        let mut strike = match *state {
            AllyState::Attack => true,
            _ => false,
        };
        apply_attack_cooldown(counters, &mut strike, entering_attack, attack_cooldown_ticks);
        let intent = match *state {
            AllyState::Chase => AllyIntent::Chase,
            _ => if strike {
                AllyIntent::Strike
            } else {
                AllyIntent::Stop
            },
        };
        return Some((AllyTarget::Enemy, intent));
    }
    if *state != AllyState::Follow && can_transition {
        *state = AllyState::Follow;
        counters.frames_since_state_entered = 0;
    }
    match player_should_follow {
        None => Some((AllyTarget::Nothing, AllyIntent::Stop)),
        Some(f) => Some((AllyTarget::Player, if f {
            AllyIntent::Follow
        } else {
            AllyIntent::Stop
        })),
    }
}

/// The desires of a command that the actuator reads.
#[derive(Debug, Clone, Copy, PartialEq, Eq, Structural)]
pub struct CommandFlags {
    pub guard: bool,
    pub jump: bool,
    pub attack: bool,
    pub down_attack: bool,
    /// Whether the command asks to move on either axis.
    pub moving: bool,
}

/// What the actuator does with a command.
#[derive(Debug, Clone, Copy, PartialEq, Eq, Structural)]
pub struct Actuation {
    /// The character's next state.
    pub state: CharacterState,
    /// Whether to step the position by the command's movement (and turn to
    /// face it).
    pub moves: bool,
    /// Whether to launch a jump (set the upward velocity).
    pub launch_jump: bool,
}

/// The actuator's rule. In a jump the character may steer and turns into a
/// jump attack on `attack`. One-shot actions are not overridden. A guard
/// holds while `guard` is held and drops to `Idle` when released. Otherwise,
/// on the ground, guard beats jump, then attack, then down attack, then
/// movement (`Walk` when moving, `Idle` when not).
pub open spec fn spec_actuate(state: CharacterState, cmd: CommandFlags, grounded: bool) -> Actuation {
    if state == CharacterState::Jump {
        Actuation {
            state: if cmd.attack { CharacterState::JumpAttack } else { state },
            moves: cmd.moving,
            launch_jump: false,
        }
    } else if spec_is_locked(state) {
        Actuation { state, moves: false, launch_jump: false }
    } else if state == CharacterState::Guard {
        Actuation { state: if cmd.guard { state } else { CharacterState::Idle }, moves: false, launch_jump: false }
    } else if cmd.guard && grounded {
        Actuation { state: CharacterState::Guard, moves: false, launch_jump: false }
    } else if cmd.jump && grounded {
        Actuation { state: CharacterState::Jump, moves: false, launch_jump: true }
    } else if cmd.attack {
        Actuation { state: CharacterState::Attack, moves: false, launch_jump: false }
    } else if cmd.down_attack {
        Actuation { state: CharacterState::DownAttack, moves: false, launch_jump: false }
    } else {
        Actuation {
            state: if cmd.moving { CharacterState::Walk } else { CharacterState::Idle },
            moves: cmd.moving,
            launch_jump: false,
        }
    }
}

/// Applies the actuator's rule to a command (see [`spec_actuate`]).
/// `grounded` is whether the character stands on the ground (height 0).
pub fn actuate(state: CharacterState, cmd: CommandFlags, grounded: bool) -> (r: Actuation)
    ensures
        r == spec_actuate(state, cmd, grounded),
        // On the ground, out of a jump, a one-shot action and a guard, input
        // goes by priority: guard, jump, attack, down attack, then movement.
        ({
            let free = state != CharacterState::Jump && state != CharacterState::Attack && state != CharacterState::Hit
                && state != CharacterState::Guard;
            &&& free && grounded && cmd.guard ==> r == (Actuation {
                state: CharacterState::Guard,
                moves: false,
                launch_jump: false,
            })
            &&& free && grounded && !cmd.guard && cmd.jump ==> r == (Actuation {
                state: CharacterState::Jump,
                moves: false,
                launch_jump: true,
            })
            &&& free && grounded && !cmd.guard && !cmd.jump && cmd.attack ==> r == (Actuation {
                state: CharacterState::Attack,
                moves: false,
                launch_jump: false,
            })
            &&& free && grounded && !cmd.guard && !cmd.jump && !cmd.attack && cmd.down_attack ==> r == (Actuation {
                state: CharacterState::DownAttack,
                moves: false,
                launch_jump: false,
            })
            &&& free && !cmd.guard && !cmd.jump && !cmd.attack && !cmd.down_attack ==> r == (Actuation {
                state: if cmd.moving { CharacterState::Walk } else { CharacterState::Idle },
                moves: cmd.moving,
                launch_jump: false,
            })
            // Off the ground guard and jump are not taken; the rest keeps its order.
            &&& free && !grounded && cmd.attack ==> r == (Actuation {
                state: CharacterState::Attack,
                moves: false,
                launch_jump: false,
            })
            &&& free && !grounded && !cmd.attack && cmd.down_attack ==> r == (Actuation {
                state: CharacterState::DownAttack,
                moves: false,
                launch_jump: false,
            })
            &&& free && !grounded && !cmd.attack && !cmd.down_attack ==> r == (Actuation {
                state: if cmd.moving { CharacterState::Walk } else { CharacterState::Idle },
                moves: cmd.moving,
                launch_jump: false,
            })
        }),
        // A guard holds while guard is held and drops to `Idle` on release.
        state == CharacterState::Guard ==> r.state == (if cmd.guard { CharacterState::Guard } else { CharacterState::Idle })
            && !r.moves && !r.launch_jump,
        // One-shot actions are not cut short.
        state == CharacterState::Attack || state == CharacterState::Hit ==> r == (Actuation {
            state,
            moves: false,
            launch_jump: false,
        }),
        // In a jump the character steers, and attack turns it into a jump attack.
        state == CharacterState::Jump ==> r == (Actuation {
            state: if cmd.attack { CharacterState::JumpAttack } else { CharacterState::Jump },
            moves: cmd.moving,
            launch_jump: false,
        }),
{
    if state == CharacterState::Jump {
        return Actuation {
            state: if cmd.attack { CharacterState::JumpAttack } else { state },
            moves: cmd.moving,
            launch_jump: false,
        };
    }
    if state.is_locked() {
        return Actuation { state, moves: false, launch_jump: false };
    }
    if state == CharacterState::Guard {
        return Actuation { state: if cmd.guard { state } else { CharacterState::Idle }, moves: false, launch_jump: false };
    }
    if cmd.guard && grounded {
        return Actuation { state: CharacterState::Guard, moves: false, launch_jump: false };
    }
    if cmd.jump && grounded {
        return Actuation { state: CharacterState::Jump, moves: false, launch_jump: true };
    }
    if cmd.attack {
        return Actuation { state: CharacterState::Attack, moves: false, launch_jump: false };
    }
    if cmd.down_attack {
        return Actuation { state: CharacterState::DownAttack, moves: false, launch_jump: false };
    }
    Actuation { state: if cmd.moving { CharacterState::Walk } else { CharacterState::Idle }, moves: cmd.moving, launch_jump: false }
}

/// Input never cuts a one-shot action short, and a jump is only launched
/// from the ground.
pub proof fn lemma_locked_states_hold(state: CharacterState, cmd: CommandFlags, grounded: bool)
    ensures
        spec_is_locked(state) ==> spec_actuate(state, cmd, grounded).state == state && !spec_actuate(
            state,
            cmd,
            grounded,
        ).moves,
        spec_actuate(state, cmd, grounded).launch_jump ==> grounded && spec_actuate(state, cmd, grounded).state
            == CharacterState::Jump,
{
}

} // verus!
