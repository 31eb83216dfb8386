//! The text of the per-character debug overlay: state and role, elapsed
//! ticks, frame and tick within the frame (both counted from 1), hit
//! points, knockback gauge, bounces, ending and back-hit flag.
use vstd::prelude::*;

use crate::entities::character::CombatParams;
use super::animation::{AnimationFrames, spec_duration_to_ticks};
use super::attack::HitPoints;
use super::knockback::{Combatant, FinalAction};
use super::state_machine::CharacterState;

verus! {

/// The variant name of a state (also the name of its role).
pub open spec fn state_name(s: CharacterState) -> Seq<char> {
    match s {
        CharacterState::Idle => seq!['I', 'd', 'l', 'e'],
        CharacterState::Walk => seq!['W', 'a', 'l', 'k'],
        CharacterState::Attack => seq!['A', 't', 't', 'a', 'c', 'k'],
        CharacterState::Hit => seq!['H', 'i', 't'],
        CharacterState::Jump => seq!['J', 'u', 'm', 'p'],
        CharacterState::JumpAttack => seq!['J', 'u', 'm', 'p', 'A', 't', 't', 'a', 'c', 'k'],
        CharacterState::Guard => seq!['G', 'u', 'a', 'r', 'd'],
        CharacterState::GuardBreak => seq!['G', 'u', 'a', 'r', 'd', 'B', 'r', 'e', 'a', 'k'],
        CharacterState::KnockbackUp => seq!['K', 'n', 'o', 'c', 'k', 'b', 'a', 'c', 'k', 'U', 'p'],
        CharacterState::KnockbackDown => seq!['K', 'n', 'o', 'c', 'k', 'b', 'a', 'c', 'k', 'D', 'o', 'w', 'n'],
        CharacterState::BounceUp => seq!['B', 'o', 'u', 'n', 'c', 'e', 'U', 'p'],
        CharacterState::BounceDown => seq!['B', 'o', 'u', 'n', 'c', 'e', 'D', 'o', 'w', 'n'],
        CharacterState::Slide => seq!['S', 'l', 'i', 'd', 'e'],
        CharacterState::LieDown => seq!['L', 'i', 'e', 'D', 'o', 'w', 'n'],
        CharacterState::Rise => seq!['R', 'i', 's', 'e'],
        CharacterState::DownHit => seq!['D', 'o', 'w', 'n', 'H', 'i', 't'],
        CharacterState::DownAttack => seq!['D', 'o', 'w', 'n', 'A', 't', 't', 'a', 'c', 'k'],
    }
}

/// The variant name of a state.
pub fn state_name_str(s: CharacterState) -> (r: &'static str)
    ensures
        r@ == state_name(s),
{
    match s {
        CharacterState::Idle => {
            proof {
                reveal_strlit("Idle");
            }
            "Idle"
        },
        CharacterState::Walk => {
            proof {
                reveal_strlit("Walk");
            }
            "Walk"
        },
        CharacterState::Attack => {
            proof {
                reveal_strlit("Attack");
            }
            "Attack"
        },
        CharacterState::Hit => {
            proof {
                reveal_strlit("Hit");
            }
            "Hit"
        },
        CharacterState::Jump => {
            proof {
                reveal_strlit("Jump");
            }
            "Jump"
        },
        CharacterState::JumpAttack => {
            proof {
                reveal_strlit("JumpAttack");
            }
            "JumpAttack"
        },
        CharacterState::Guard => {
            proof {
                reveal_strlit("Guard");
            }
            "Guard"
        },
        CharacterState::GuardBreak => {
            proof {
                reveal_strlit("GuardBreak");
            }
            "GuardBreak"
        },
        CharacterState::KnockbackUp => {
            proof {
                reveal_strlit("KnockbackUp");
            }
            "KnockbackUp"
        },
        CharacterState::KnockbackDown => {
            proof {
                reveal_strlit("KnockbackDown");
            }
            "KnockbackDown"
        },
        CharacterState::BounceUp => {
            proof {
                reveal_strlit("BounceUp");
            }
            "BounceUp"
        },
        CharacterState::BounceDown => {
            proof {
                reveal_strlit("BounceDown");
            }
            "BounceDown"
        },
        CharacterState::Slide => {
            proof {
                reveal_strlit("Slide");
            }
            "Slide"
        },
        CharacterState::LieDown => {
            proof {
                reveal_strlit("LieDown");
            }
            "LieDown"
        },
        CharacterState::Rise => {
            proof {
                reveal_strlit("Rise");
            }
            "Rise"
        },
        CharacterState::DownHit => {
            proof {
                reveal_strlit("DownHit");
            }
            "DownHit"
        },
        CharacterState::DownAttack => {
            proof {
                reveal_strlit("DownAttack");
            }
            "DownAttack"
        },
    }
}

/// The decimal digit `d` (0 to 9).
pub open spec fn digit_char(d: nat) -> char {
    if d == 0 { '0' } else if d == 1 { '1' } else if d == 2 { '2' } else if d == 3 { '3' } else if d == 4 { '4' }
    else if d == 5 { '5' } else if d == 6 { '6' } else if d == 7 { '7' } else if d == 8 { '8' } else { '9' }
}

/// `n` in decimal, without leading zeros.
#[verifier::opaque]
pub open spec fn dec(n: nat) -> Seq<char>
    decreases n,
{
    if n < 10 { seq![digit_char(n)] } else { dec(n / 10).push(digit_char(n % 10)) }
}

/// `n` in decimal with a leading `-` when negative.
pub open spec fn signed_dec(n: int) -> Seq<char> {
    if n < 0 { seq!['-'] + dec((-n) as nat) } else { dec(n as nat) }
}

fn digit_str(d: u64) -> (r: &'static str)
    requires
        d < 10,
    ensures
        r@ == seq![digit_char(d as nat)],
{
    match d {
        0 => {
            proof {
                reveal_strlit("0");
            }
            "0"
        },
        1 => {
            proof {
                reveal_strlit("1");
            }
            "1"
        },
        2 => {
            proof {
                reveal_strlit("2");
            }
            "2"
        },
        3 => {
            proof {
                reveal_strlit("3");
            }
            "3"
        },
        4 => {
            proof {
                reveal_strlit("4");
            }
            "4"
        },
        5 => {
            proof {
                reveal_strlit("5");
            }
            "5"
        },
        6 => {
            proof {
                reveal_strlit("6");
            }
            "6"
        },
        7 => {
            proof {
                reveal_strlit("7");
            }
            "7"
        },
        8 => {
            proof {
                reveal_strlit("8");
            }
            "8"
        },
        _ => {
            proof {
                reveal_strlit("9");
            }
            "9"
        },
    }
}

/// Appends `n` in decimal.
pub fn append_dec(out: &mut String, n: u64)
    ensures
        final(out)@ == old(out)@ + dec(n as nat),
    decreases n,
{
    if n >= 10 {
        append_dec(out, n / 10);
    }
    out.append(digit_str(n % 10));
    proof {
        reveal(dec);
        if n >= 10 {
            assert(old(out)@ + dec(n as nat) =~= old(out)@ + dec((n / 10) as nat) + seq![digit_char((n % 10) as nat)]);
        } else {
            assert(n % 10 == n);
        }
    }
}

/// Appends `n` in decimal, with a leading `-` when negative.
pub fn append_signed_dec(out: &mut String, n: i64)
    ensures
        final(out)@ == old(out)@ + signed_dec(n as int),
{
    if n < 0 {
        out.append("-");
        proof {
            reveal_strlit("-");
        }
        let m: u64 = if n == i64::MIN { 9_223_372_036_854_775_808u64 } else { (-n) as u64 };
        append_dec(out, m);
        proof {
            assert(old(out)@ + signed_dec(n as int) =~= old(out)@ + seq!['-'] + dec(m as nat));
        }
    } else {
        append_dec(out, n as u64);
    }
}

/// The frame number shown: the current index counted from 1, or 0 for an
/// empty animation.
pub open spec fn shown_frame(count: nat, current: nat) -> nat {
    if count == 0 { 0 } else { current + 1 }
}

/// The tick shown within the frame: the elapsed ticks counted from 1 and
/// held at the frame's total, or 0 for an empty animation or a frame
/// shorter than a tick.
pub open spec fn shown_tick(count: nat, elapsed: nat, total: nat) -> nat {
    if count == 0 || total == 0 { 0 } else if elapsed + 1 < total { elapsed + 1 } else { total }
}

pub open spec fn final_action_name(f: FinalAction) -> Seq<char> {
    match f {
        FinalAction::LieDown => seq!['L', 'i', 'e', 'D', 'o', 'w', 'n'],
        FinalAction::Dead => seq!['D', 'e', 'a', 'd'],
    }
}

pub open spec fn bool_name(b: bool) -> Seq<char> {
    if b { seq!['t', 'r', 'u', 'e'] } else { seq!['f', 'a', 'l', 's', 'e'] }
}

/// The first line: state, role and ticks since the animation started.
pub open spec fn label_head(state: CharacterState, elapsed_total: nat) -> Seq<char> {
    state_name(state) + seq!['('] + state_name(state) + seq![')', ' ', 't', '='] + dec(elapsed_total)
}

/// The frame line: frame number of frame count, tick of ticks in frame.
pub open spec fn label_frame(frame: nat, frame_count: nat, tick: nat, frame_total: nat) -> Seq<char> {
    seq!['\n', 'f', '='] + dec(frame) + seq!['/'] + dec(frame_count) + seq![' '] + dec(tick) + seq!['/'] + dec(frame_total)
}

/// The hit-point line: current of max, or `-` without hit points.
pub open spec fn label_hp(hp: Option<HitPoints>) -> Seq<char> {
    seq!['\n', 'H', 'P', '='] + match hp {
        Some(h) => dec(h.current as nat) + seq!['/'] + dec(h.max as nat),
        None => seq!['-'],
    }
}

/// The gauge line: gauge of threshold.
pub open spec fn label_gauge(gauge: int, threshold: nat) -> Seq<char> {
    seq!['\n', 'G', '='] + signed_dec(gauge) + seq!['/'] + dec(threshold)
}

/// The bounce line: bounces left of bounces, and the ending.
pub open spec fn label_bounces(left: nat, all: nat, f: FinalAction) -> Seq<char> {
    seq!['\n', 'B', '='] + dec(left) + seq!['/'] + dec(all) + seq![' ', 'F', 'A', '='] + final_action_name(f)
}

/// The back-hit line.
pub open spec fn label_back(b: bool) -> Seq<char> {
    seq!['\n', 'H', 'F', 'B', '='] + bool_name(b)
}

/// The overlay text of a character.
pub open spec fn spec_label(
    state: CharacterState,
    elapsed_total: nat,
    frame_count: nat,
    current: nat,
    frame_elapsed: nat,
    frame_total: nat,
    c: Combatant,
    p: CombatParams,
    hp: Option<HitPoints>,
) -> Seq<char> {
    label_head(state, elapsed_total) + label_frame(
        shown_frame(frame_count, current),
        frame_count,
        shown_tick(frame_count, frame_elapsed, frame_total),
        frame_total,
    ) + label_hp(hp)
        + label_gauge(c.gauge as int, p.knockback_threshold as nat) + label_bounces(
        c.remaining_bounces as nat,
        p.bounce_count as nat,
        c.final_action,
    ) + label_back(c.hit_from_behind)
}

fn head_text(state: CharacterState, elapsed_total: u64) -> (r: String)
    ensures
        r@ == label_head(state, elapsed_total as nat),
{
    let name = state_name_str(state);
    let mut s = String::from_str(name);
    s.append("(");
    s.append(name);
    s.append(") t=");
    append_dec(&mut s, elapsed_total);
    proof {
        reveal_strlit("(");
        reveal_strlit(") t=");
    }
    s
}

fn append_frame(s: &mut String, frame_count: u64, frame_human: u64, tick_human: u64, frame_total: u64)
    ensures
        final(s)@ == old(s)@ + label_frame(frame_human as nat, frame_count as nat, tick_human as nat, frame_total as nat),
{
    s.append("\nf=");
    append_dec(s, frame_human);
    s.append("/");
    append_dec(s, frame_count);
    s.append(" ");
    append_dec(s, tick_human);
    s.append("/");
    append_dec(s, frame_total);
    proof {
        reveal_strlit("\nf=");
        reveal_strlit("/");
        reveal_strlit(" ");
        assert(final(s)@ =~= old(s)@ + label_frame(frame_human as nat, frame_count as nat, tick_human as nat, frame_total as nat));
    }
}

fn append_hp(s: &mut String, hp: Option<HitPoints>)
    ensures
        final(s)@ == old(s)@ + label_hp(hp),
{
    s.append("\nHP=");
    match hp {
        Some(h) => {
            append_dec(s, h.current as u64);
            s.append("/");
            append_dec(s, h.max as u64);
        },
        None => {
            s.append("-");
        },
    }
    proof {
        reveal_strlit("\nHP=");
        reveal_strlit("/");
        reveal_strlit("-");
    }
}

fn append_gauge(s: &mut String, gauge: i32, threshold: u32)
    ensures
        final(s)@ == old(s)@ + label_gauge(gauge as int, threshold as nat),
{
    s.append("\nG=");
    append_signed_dec(s, gauge as i64);
    s.append("/");
    append_dec(s, threshold as u64);
    proof {
        reveal_strlit("\nG=");
        reveal_strlit("/");
    }
}

fn append_bounces(s: &mut String, left: u32, all: u32, f: FinalAction)
    ensures
        final(s)@ == old(s)@ + label_bounces(left as nat, all as nat, f),
{
    s.append("\nB=");
    append_dec(s, left as u64);
    s.append("/");
    append_dec(s, all as u64);
    s.append(" FA=");
    match f {
        FinalAction::LieDown => s.append("LieDown"),
        FinalAction::Dead => s.append("Dead"),
    }
    proof {
        reveal_strlit("\nB=");
        reveal_strlit("/");
        reveal_strlit(" FA=");
        reveal_strlit("LieDown");
        reveal_strlit("Dead");
    }
}

fn append_back(s: &mut String, b: bool)
    ensures
        final(s)@ == old(s)@ + label_back(b),
{
    s.append("\nHFB=");
    if b {
        s.append("true");
    } else {
        s.append("false");
    }
    proof {
        reveal_strlit("\nHFB=");
        reveal_strlit("true");
        reveal_strlit("false");
    }
}

/// Builds the overlay text of a character (see [`spec_label`]).
pub fn format_label<F>(
    state: CharacterState,
    anim: &AnimationFrames<F>,
    combatant: &Combatant,
    params: &CombatParams,
    hp: Option<HitPoints>,
) -> (r: String)
    requires
        anim.wf(),
    ensures
        r@ == spec_label(
            state,
            spec_duration_to_ticks(anim.total_elapsed) as nat,
            anim.frames.len() as nat,
            anim.current as nat,
            spec_duration_to_ticks(anim.elapsed_in_frame) as nat,
            (if anim.current < anim.frames.len() {
                spec_duration_to_ticks(anim.frames@[anim.current as int].duration_nanos)
            } else {
                0
            }) as nat,
            *combatant,
            *params,
            hp,
        ),
{
    let frame_count = anim.frame_count();
    let frame_human: u64 = if frame_count == 0 { 0 } else { anim.current_index() as u64 + 1 };
    let frame_elapsed = anim.current_frame_elapsed_ticks();
    let frame_total = anim.current_frame_total_ticks();
    let tick_human: u32 = if frame_count == 0 || frame_total == 0 {
        0
    } else if frame_elapsed < frame_total - 1 {
        frame_elapsed + 1
    } else {
        frame_total
    };
    let elapsed_total = anim.total_elapsed_ticks();
    assert(frame_human as nat == shown_frame(anim.frames.len() as nat, anim.current as nat));
    assert(tick_human as nat == shown_tick(anim.frames.len() as nat, frame_elapsed as nat, frame_total as nat));
    let mut s = head_text(state, elapsed_total as u64);
    append_frame(&mut s, frame_count as u64, frame_human, tick_human as u64, frame_total as u64);
    append_hp(&mut s, hp);
    append_gauge(&mut s, combatant.gauge, params.knockback_threshold);
    append_bounces(&mut s, combatant.remaining_bounces, params.bounce_count, combatant.final_action);
    append_back(&mut s, combatant.hit_from_behind);
    s
}

} // verus!
