//! Which sound a frame plays, and when.
//!
//! When the animation enters a frame (its index differs from the one seen
//! on the previous tick), the frame's sound reference is chosen by the
//! attacker's outcome and latched with its delay; a newer latch replaces an
//! older one. Each tick takes one vsync tick off the delay (not below zero)
//! and the sound fires on the tick that brings it to zero, so a delay of `d`
//! fires `max(1, ceil(d / tick))` ticks after the frame entry, counting the
//! entry tick.
use vstd::prelude::*;

use crate::entities::character::FrameSound;

verus! {

/// One 60 Hz vsync tick in nanoseconds (16 667 µs).
pub const TICK_NANOS: u64 = 16_667_000;

/// What the current attack of a character has achieved so far.
#[derive(Debug, Clone, Copy, PartialEq, Eq, Hash, Structural)]
pub enum AttackOutcome {
    /// Nothing hit yet (also right after an animation switch).
    Idle,
    /// The attack hit.
    Hit,
    /// The attack was guarded.
    Guarded,
}

impl Default for AttackOutcome {
    fn default() -> (r: Self)
        ensures
            r == AttackOutcome::Idle,
    {
        AttackOutcome::Idle
    }
}

/// A latched sound waiting for its delay to run out.
#[derive(Debug, Clone, Copy, PartialEq, Eq, Structural)]
pub struct PendingSound {
    /// Sound group number.
    pub number: u32,
    pub remaining_delay_nanos: u64,
}

/// Per-character sound state: the frame index seen on the previous tick
/// (`None` right after an animation switch) and at most one pending sound.
#[derive(Debug, Clone, Copy, PartialEq, Eq, Structural)]
pub struct SoundDispatch {
    pub prev_frame_index: Option<usize>,
    pub pending: Option<PendingSound>,
}

impl Default for SoundDispatch {
    fn default() -> (r: Self)
        ensures
            r == (SoundDispatch { prev_frame_index: None, pending: None }),
    {
        SoundDispatch { prev_frame_index: None, pending: None }
    }
}

/// The sound group a frame plays for an outcome: `on_hit` after a hit and
/// `on_guard` after a guard, each falling back to `number`; `number` when
/// nothing has hit.
pub open spec fn spec_select_frame_sound_number(fs: FrameSound, outcome: AttackOutcome) -> Option<u32> {
    match outcome {
        AttackOutcome::Hit => if fs.on_hit is Some { fs.on_hit } else { fs.number },
        AttackOutcome::Guarded => if fs.on_guard is Some { fs.on_guard } else { fs.number },
        AttackOutcome::Idle => fs.number,
    }
}

/// Chooses a frame's sound group for the attack outcome.
pub fn select_frame_sound_number(fs: &FrameSound, outcome: AttackOutcome) -> (r: Option<u32>)
    ensures
        r == spec_select_frame_sound_number(*fs, outcome),
        // After a hit the hit sound plays, after a guard the guard sound, each
        // when the frame names one; otherwise the frame's own sound.
        outcome == AttackOutcome::Hit && fs.on_hit is Some ==> r == fs.on_hit,
        outcome == AttackOutcome::Guarded && fs.on_guard is Some ==> r == fs.on_guard,
        !(outcome == AttackOutcome::Hit && fs.on_hit is Some) && !(outcome == AttackOutcome::Guarded && fs.on_guard is Some)
            ==> r == fs.number,
{
    match outcome {
        AttackOutcome::Hit => match fs.on_hit {
            Some(n) => Some(n),
            None => fs.number,
        },
        AttackOutcome::Guarded => match fs.on_guard {
            Some(n) => Some(n),
            None => fs.number,
        },
        AttackOutcome::Idle => fs.number,
    }
}

/// `r - t`, stopping at zero.
pub open spec fn sat_sub(r: u64, t: u64) -> u64 {
    if r > t { (r - t) as u64 } else { 0 }
}

/// The pending slot after a frame entry: the chosen sound with its delay,
/// or the old pending sound when the frame chooses none.
pub open spec fn latched(d: SoundDispatch, current_index: usize, fs: Option<FrameSound>, outcome: AttackOutcome) -> Option<PendingSound> {
    if Some(current_index) != d.prev_frame_index {
        match fs {
            Some(f) => match spec_select_frame_sound_number(f, outcome) {
                Some(n) => Some(PendingSound { number: n, remaining_delay_nanos: (f.delay_ms * 1_000_000) as u64 }),
                None => d.pending,
            },
            None => d.pending,
        }
    } else {
        d.pending
    }
}

/// One tick of the dispatcher: the sound it fires and its next state.
pub open spec fn spec_step_dispatch(current_index: usize, fs: Option<FrameSound>, outcome: AttackOutcome, d: SoundDispatch) -> (
    Option<u32>,
    SoundDispatch,
) {
    let prev = if Some(current_index) != d.prev_frame_index { Some(current_index) } else { d.prev_frame_index };
    match latched(d, current_index, fs, outcome) {
        None => (None, SoundDispatch { prev_frame_index: prev, pending: None }),
        Some(p) => {
            let r = sat_sub(p.remaining_delay_nanos, TICK_NANOS);
            if r == 0 {
                (Some(p.number), SoundDispatch { prev_frame_index: prev, pending: None })
            } else {
                (None, SoundDispatch { prev_frame_index: prev, pending: Some(PendingSound { number: p.number, remaining_delay_nanos: r }) })
            }
        },
    }
}

impl SoundDispatch {
    /// State for a character that has just appeared: its first frame counts
    /// as seen, so that frame's sound does not play.
    pub fn reset_for_spawn(&mut self)
        ensures
            *final(self) == (SoundDispatch { prev_frame_index: Some(0), pending: None }),
    {
        self.prev_frame_index = Some(0);
        self.pending = None;
    }

    /// State after an animation switch: nothing seen yet, so the new first
    /// frame's sound plays, and the sound of the cut-off action is dropped.
    pub fn reset_for_switch(&mut self)
        ensures
            *final(self) == (SoundDispatch { prev_frame_index: None, pending: None }),
    {
        self.prev_frame_index = None;
        self.pending = None;
    }
}

/// Runs one tick: on a frame entry latches the frame's sound (replacing any
/// pending one), then takes a tick off the pending delay and returns the
/// sound group that fires on this tick.
pub fn step_dispatch(
    current_index: usize,
    current_frame_sound: Option<FrameSound>,
    attack_outcome: AttackOutcome,
    dispatch: &mut SoundDispatch,
) -> (r: Option<u32>)
    ensures
        (r, *final(dispatch)) == spec_step_dispatch(current_index, current_frame_sound, attack_outcome, *old(dispatch)),
        // The current frame counts as seen afterwards.
        final(dispatch).prev_frame_index == Some(current_index),
        // On entering a frame that chooses a sound, that sound is latched with
        // the frame's delay and a tick is taken off at once: it fires now when
        // the delay is at most one tick.
        current_frame_sound matches Some(fs) ==> (old(dispatch).prev_frame_index != Some(current_index) ==> (
        spec_select_frame_sound_number(fs, attack_outcome) matches Some(n) ==> (if fs.delay_ms * 1_000_000
            <= TICK_NANOS {
            r == Some(n) && final(dispatch).pending is None
        } else {
            r is None && final(dispatch).pending == Some(
                PendingSound { number: n, remaining_delay_nanos: (fs.delay_ms * 1_000_000 - TICK_NANOS) as u64 },
            )
        }))),
        // Otherwise a pending sound counts down one tick and fires when its
        // delay is used up; with nothing pending nothing fires.
        (old(dispatch).prev_frame_index == Some(current_index) || current_frame_sound is None) ==> match old(
            dispatch,
        ).pending {
            None => r is None && final(dispatch).pending is None,
            Some(p) => if p.remaining_delay_nanos <= TICK_NANOS {
                r == Some(p.number) && final(dispatch).pending is None
            } else {
                r is None && final(dispatch).pending == Some(
                    PendingSound { number: p.number, remaining_delay_nanos: (p.remaining_delay_nanos - TICK_NANOS) as u64 },
                )
            },
        },
{
    let entered = match dispatch.prev_frame_index {
        Some(p) => p != current_index,
        None => true,
    };
    if entered {
        dispatch.prev_frame_index = Some(current_index);
        if let Some(fs) = current_frame_sound {
            if let Some(number) = select_frame_sound_number(&fs, attack_outcome) {
                assert(fs.delay_ms * 1_000_000 <= u64::MAX);
                dispatch.pending = Some(PendingSound { number, remaining_delay_nanos: fs.delay_ms as u64 * 1_000_000 });
            }
        }
    }
    match dispatch.pending {
        None => None,
        Some(p) => {
            let r: u64 = if p.remaining_delay_nanos > TICK_NANOS { p.remaining_delay_nanos - TICK_NANOS } else { 0 };
            if r == 0 {
                dispatch.pending = None;
                Some(p.number)
            } else {
                dispatch.pending = Some(PendingSound { number: p.number, remaining_delay_nanos: r });
                None
            }
        },
    }
}

/// `m` ticks on the same frame with no sound of its own: the sound fired on
/// the last of them (`None` for no tick) and the state after them.
pub open spec fn quiet_ticks(current_index: usize, outcome: AttackOutcome, d: SoundDispatch, m: nat) -> (
    Option<u32>,
    SoundDispatch,
)
    decreases m,
{
    if m == 0 {
        (None, d)
    } else {
        let (o, d1) = spec_step_dispatch(current_index, None, outcome, d);
        if m == 1 { (o, d1) } else { quiet_ticks(current_index, outcome, d1, (m - 1) as nat) }
    }
}

/// Ticks from a frame entry until its sound fires, the entry tick included:
/// one when the delay is at most a tick, else the delay divided by the tick
/// and rounded up.
pub open spec fn fire_ticks(delay_ms: u32) -> int {
    let d = delay_ms * 1_000_000;
    if d <= TICK_NANOS { 1 } else { (d + TICK_NANOS - 1) / TICK_NANOS as int }
}

proof fn lemma_quiet_countdown(cur: usize, outcome: AttackOutcome, n: u32, r: u64, m: nat)
    requires
        m >= 1,
        (m - 1) * TICK_NANOS < r,
    ensures
        ({
            let d = SoundDispatch { prev_frame_index: Some(cur), pending: Some(PendingSound { number: n, remaining_delay_nanos: r }) };
            let (o, d2) = quiet_ticks(cur, outcome, d, m);
            &&& r > m * TICK_NANOS ==> o is None && d2 == (SoundDispatch {
                prev_frame_index: Some(cur),
                pending: Some(PendingSound { number: n, remaining_delay_nanos: (r - m * TICK_NANOS) as u64 }),
            })
            &&& r <= m * TICK_NANOS ==> o == Some(n) && d2 == (SoundDispatch { prev_frame_index: Some(cur), pending: None })
        }),
    decreases m,
{
    let d = SoundDispatch { prev_frame_index: Some(cur), pending: Some(PendingSound { number: n, remaining_delay_nanos: r }) };
    let (o1, d1) = spec_step_dispatch(cur, None, outcome, d);
    if m > 1 {
        assert(r > TICK_NANOS) by (nonlinear_arith)
            requires
                (m - 1) * TICK_NANOS < r,
                m > 1,
        ;
        let r1 = (r - TICK_NANOS) as u64;
        assert(d1 == (SoundDispatch { prev_frame_index: Some(cur), pending: Some(PendingSound { number: n, remaining_delay_nanos: r1 }) }));
        assert(((m - 1) - 1) * TICK_NANOS < r1) by (nonlinear_arith)
            requires
                (m - 1) * TICK_NANOS < r,
                r1 == r - TICK_NANOS,
        ;
        lemma_quiet_countdown(cur, outcome, n, r1, (m - 1) as nat);
        assert((m - 1) * TICK_NANOS + TICK_NANOS == m * TICK_NANOS) by (nonlinear_arith);
    }
}

/// A frame's sound fires on the entry tick itself exactly when its delay
/// is at most one tick.
pub proof fn lemma_entry_tick_fires(cur: usize, fs: FrameSound, outcome: AttackOutcome, d0: SoundDispatch)
    requires
        d0.prev_frame_index != Some(cur),
        spec_select_frame_sound_number(fs, outcome) is Some,
    ensures
        spec_step_dispatch(cur, Some(fs), outcome, d0).0 == (if fire_ticks(fs.delay_ms) == 1 {
            spec_select_frame_sound_number(fs, outcome)
        } else {
            None
        }),
{
    let dn = (fs.delay_ms * 1_000_000) as u64;
    if dn > TICK_NANOS {
        assert((dn + TICK_NANOS - 1) / TICK_NANOS as int >= 2) by (nonlinear_arith)
            requires
                dn > TICK_NANOS,
        ;
    }
}

/// A sound latched on a frame entry with a delay of more than one tick
/// fires on the `fire_ticks(delay_ms)`-th tick counting the entry tick, and
/// not before, as long as the frame does not change.
pub proof fn lemma_delay_fires(cur: usize, fs: FrameSound, outcome: AttackOutcome, d0: SoundDispatch, m: nat)
    requires
        d0.prev_frame_index != Some(cur),
        spec_select_frame_sound_number(fs, outcome) is Some,
        1 <= m < fire_ticks(fs.delay_ms),
    ensures
        ({
            let n = spec_select_frame_sound_number(fs, outcome)->0;
            let (o1, d1) = spec_step_dispatch(cur, Some(fs), outcome, d0);
            &&& o1 is None
            &&& m < fire_ticks(fs.delay_ms) - 1 ==> quiet_ticks(cur, outcome, d1, m).0 is None
            &&& m == fire_ticks(fs.delay_ms) - 1 ==> quiet_ticks(cur, outcome, d1, m).0 == Some(n)
        }),
{
    let n = spec_select_frame_sound_number(fs, outcome)->0;
    let dn = (fs.delay_ms * 1_000_000) as u64;
    let k = fire_ticks(fs.delay_ms);
    assert(dn > TICK_NANOS);
    let r1 = (dn - TICK_NANOS) as u64;
    let (o1, d1) = spec_step_dispatch(cur, Some(fs), outcome, d0);
    assert(d1 == (SoundDispatch { prev_frame_index: Some(cur), pending: Some(PendingSound { number: n, remaining_delay_nanos: r1 }) }));
    assert(k * TICK_NANOS >= dn && (k - 1) * TICK_NANOS < dn) by (nonlinear_arith)
        requires
            k == (dn + TICK_NANOS - 1) / TICK_NANOS as int,
            dn > TICK_NANOS,
    ;
    assert((m - 1) * TICK_NANOS < r1) by (nonlinear_arith)
        requires
            r1 == dn - TICK_NANOS,
            m < k,
            (k - 1) * TICK_NANOS < dn,
    ;
    lemma_quiet_countdown(cur, outcome, n, r1, m);
    if m < k - 1 {
        assert(r1 > m * TICK_NANOS) by (nonlinear_arith)
            requires
                r1 == dn - TICK_NANOS,
                m < k - 1,
                k * TICK_NANOS >= dn,
                (k - 1) * TICK_NANOS < dn,
        ;
    } else {
        assert(r1 <= m * TICK_NANOS) by (nonlinear_arith)
            requires
                r1 == dn - TICK_NANOS,
                m == k - 1,
                k * TICK_NANOS >= dn,
        ;
    }
}

} // verus!
