//! Character data: animation roles, hit boxes, frame sounds, and the
//! defaults that character YAML falls back to.
use vstd::prelude::*;

verus! {

pub const DEFAULT_DEPTH: u32 = 16;
pub const DEFAULT_HP: u32 = 100;
pub const DEFAULT_KNOCKBACK_THRESHOLD: u32 = 100;
pub const DEFAULT_BOUNCE_COUNT: u32 = 1;
pub const DEFAULT_HIT_RECOVERY_MS: u32 = 1500;
pub const DEFAULT_LIE_DOWN_DURATION_MS: u32 = 800;
pub const DEFAULT_RISE_DURATION_MS: u32 = 300;
/// Initial and maximum guard gauge; a guard that drains it breaks.
pub const DEFAULT_GUARD_BREAK_THRESHOLD: u32 = 100;
/// Time after the last guarded hit until the guard gauge refills.
pub const DEFAULT_GUARD_RECOVERY_MS: u32 = 1200;
/// Airborne re-hits allowed per combo; further airborne hits pass through.
pub const DEFAULT_MAX_JUGGLE_COUNT: u32 = 3;
/// Hits on a downed character allowed per combo; further ones pass through.
pub const DEFAULT_MAX_DOWN_HIT_COUNT: u32 = 3;
pub const DEFAULT_AI_ATTACK_COOLDOWN_TICKS: u32 = 60;
pub const DEFAULT_AI_DECISION_INTERVAL_TICKS: u32 = 6;
pub const DEFAULT_AI_MIN_DWELL_TICKS: u32 = 8;

/// A character's name: the one its YAML gives, or the name it was loaded
/// under when the YAML gives none (or an empty one).
pub fn name_or_default(yaml_name: String, loaded_as: &str) -> (r: String)
    ensures
        r@ == (if yaml_name@.len() == 0 { loaded_as@ } else { yaml_name@ }),
{
    if yaml_name.as_str().unicode_len() == 0 {
        String::from_str(loaded_as)
    } else {
        yaml_name
    }
}

/// Hit points of a character whose YAML omits `hp`.
pub fn default_hp() -> (r: u32)
    ensures
        r == DEFAULT_HP,
{
    DEFAULT_HP
}

/// Depth (world Z extent) of a character whose YAML omits `depth`.
pub fn default_depth() -> (r: u32)
    ensures
        r == DEFAULT_DEPTH,
{
    DEFAULT_DEPTH
}

/// Attack cooldown of an AI whose YAML omits it.
pub fn default_ai_attack_cooldown_ticks() -> (r: u32)
    ensures
        r == DEFAULT_AI_ATTACK_COOLDOWN_TICKS,
{
    DEFAULT_AI_ATTACK_COOLDOWN_TICKS
}

/// Decision interval of an AI whose YAML omits it.
pub fn default_ai_decision_interval_ticks() -> (r: u32)
    ensures
        r == DEFAULT_AI_DECISION_INTERVAL_TICKS,
{
    DEFAULT_AI_DECISION_INTERVAL_TICKS
}

/// Minimum dwell of an AI whose YAML omits it.
pub fn default_ai_min_dwell_ticks() -> (r: u32)
    ensures
        r == DEFAULT_AI_MIN_DWELL_TICKS,
{
    DEFAULT_AI_MIN_DWELL_TICKS
}

/// The integer settings of a character's `physics` section that the combat
/// flow reads: knockback gauge, bounces, timers, combo limits and guard.
#[derive(Debug, Clone, Copy, PartialEq, Eq, Structural)]
pub struct CombatParams {
    /// Initial and full value of the knockback gauge.
    pub knockback_threshold: u32,
    /// Bounces left at the start of a knockback.
    pub bounce_count: u32,
    /// Time after the last hit until the knockback gauge refills.
    pub hit_recovery_ms: u32,
    pub lie_down_duration_ms: u32,
    pub rise_duration_ms: u32,
    pub max_juggle_count: u32,
    pub max_down_hit_count: u32,
    /// Initial and full value of the guard gauge.
    pub guard_break_threshold: u32,
    /// Time after the last guarded hit until the guard gauge refills.
    pub guard_recovery_ms: u32,
}

impl Default for CombatParams {
    fn default() -> (r: Self)
        ensures
            r == (CombatParams {
                knockback_threshold: DEFAULT_KNOCKBACK_THRESHOLD,
                bounce_count: DEFAULT_BOUNCE_COUNT,
                hit_recovery_ms: DEFAULT_HIT_RECOVERY_MS,
                lie_down_duration_ms: DEFAULT_LIE_DOWN_DURATION_MS,
                rise_duration_ms: DEFAULT_RISE_DURATION_MS,
                max_juggle_count: DEFAULT_MAX_JUGGLE_COUNT,
                max_down_hit_count: DEFAULT_MAX_DOWN_HIT_COUNT,
                guard_break_threshold: DEFAULT_GUARD_BREAK_THRESHOLD,
                guard_recovery_ms: DEFAULT_GUARD_RECOVERY_MS,
            }),
    {
        CombatParams {
            knockback_threshold: DEFAULT_KNOCKBACK_THRESHOLD,
            bounce_count: DEFAULT_BOUNCE_COUNT,
            hit_recovery_ms: DEFAULT_HIT_RECOVERY_MS,
            lie_down_duration_ms: DEFAULT_LIE_DOWN_DURATION_MS,
            rise_duration_ms: DEFAULT_RISE_DURATION_MS,
            max_juggle_count: DEFAULT_MAX_JUGGLE_COUNT,
            max_down_hit_count: DEFAULT_MAX_DOWN_HIT_COUNT,
            guard_break_threshold: DEFAULT_GUARD_BREAK_THRESHOLD,
            guard_recovery_ms: DEFAULT_GUARD_RECOVERY_MS,
        }
    }
}

/// The part an animation plays. Animations without a role, and custom ones,
/// are `Custom`.
#[derive(Debug, Clone, Copy, PartialEq, Eq, Hash, Structural)]
pub enum Role {
    Idle,
    Walk,
    Attack,
    Hit,
    Jump,
    JumpAttack,
    Guard,
    GuardBreak,
    KnockbackUp,
    KnockbackDown,
    BounceUp,
    BounceDown,
    Slide,
    LieDown,
    Rise,
    BackKnockbackUp,
    BackKnockbackDown,
    BackBounceUp,
    BackBounceDown,
    BackSlide,
    BackLieDown,
    BackRise,
    DeadKnockbackUp,
    DeadKnockbackDown,
    DeadBounceUp,
    DeadBounceDown,
    DeadSlide,
    DeadLieDown,
    DeadBackKnockbackUp,
    DeadBackKnockbackDown,
    DeadBackBounceUp,
    DeadBackBounceDown,
    DeadBackSlide,
    DeadBackLieDown,
    DownHit,
    DownAttack,
    Custom,
}

impl Default for Role {
    fn default() -> (r: Self)
        ensures
            r == Role::Custom,
    {
        Role::Custom
    }
}

/// The roles that a battle tries to load, in a fixed order: basic moves,
/// knockback, back knockback, fatal knockback, fatal back knockback, then
/// the down hit and the low attack.
pub open spec fn loadable_roles() -> Seq<Role> {
    seq![Role::Idle, Role::Walk, Role::Attack, Role::Hit, Role::Jump, Role::JumpAttack, Role::Guard, Role::GuardBreak, Role::KnockbackUp, Role::KnockbackDown, Role::BounceUp, Role::BounceDown, Role::Slide, Role::LieDown, Role::Rise, Role::BackKnockbackUp, Role::BackKnockbackDown, Role::BackBounceUp, Role::BackBounceDown, Role::BackSlide, Role::BackLieDown, Role::BackRise, Role::DeadKnockbackUp, Role::DeadKnockbackDown, Role::DeadBounceUp, Role::DeadBounceDown, Role::DeadSlide, Role::DeadLieDown, Role::DeadBackKnockbackUp, Role::DeadBackKnockbackDown, Role::DeadBackBounceUp, Role::DeadBackBounceDown, Role::DeadBackSlide, Role::DeadBackLieDown, Role::DownHit, Role::DownAttack]
}

impl Role {
    /// Every role except `Custom`, in loading order.
    pub fn all_loadable() -> (r: Vec<Role>)
        ensures
            r@ == loadable_roles(),
            forall|x: Role| x != Role::Custom ==> r@.contains(x),
            !r@.contains(Role::Custom),
    {
        let r = vec![Role::Idle, Role::Walk, Role::Attack, Role::Hit, Role::Jump, Role::JumpAttack, Role::Guard, Role::GuardBreak, Role::KnockbackUp, Role::KnockbackDown, Role::BounceUp, Role::BounceDown, Role::Slide, Role::LieDown, Role::Rise, Role::BackKnockbackUp, Role::BackKnockbackDown, Role::BackBounceUp, Role::BackBounceDown, Role::BackSlide, Role::BackLieDown, Role::BackRise, Role::DeadKnockbackUp, Role::DeadKnockbackDown, Role::DeadBounceUp, Role::DeadBounceDown, Role::DeadSlide, Role::DeadLieDown, Role::DeadBackKnockbackUp, Role::DeadBackKnockbackDown, Role::DeadBackBounceUp, Role::DeadBackBounceDown, Role::DeadBackSlide, Role::DeadBackLieDown, Role::DownHit, Role::DownAttack];
        proof {
            assert forall|x: Role| x != Role::Custom implies r@.contains(x) by {
                match x {
                    Role::Idle => assert(r@[0] == x),
                    Role::Walk => assert(r@[1] == x),
                    Role::Attack => assert(r@[2] == x),
                    Role::Hit => assert(r@[3] == x),
                    Role::Jump => assert(r@[4] == x),
                    Role::JumpAttack => assert(r@[5] == x),
                    Role::Guard => assert(r@[6] == x),
                    Role::GuardBreak => assert(r@[7] == x),
                    Role::KnockbackUp => assert(r@[8] == x),
                    Role::KnockbackDown => assert(r@[9] == x),
                    Role::BounceUp => assert(r@[10] == x),
                    Role::BounceDown => assert(r@[11] == x),
                    Role::Slide => assert(r@[12] == x),
                    Role::LieDown => assert(r@[13] == x),
                    Role::Rise => assert(r@[14] == x),
                    Role::BackKnockbackUp => assert(r@[15] == x),
                    Role::BackKnockbackDown => assert(r@[16] == x),
                    Role::BackBounceUp => assert(r@[17] == x),
                    Role::BackBounceDown => assert(r@[18] == x),
                    Role::BackSlide => assert(r@[19] == x),
                    Role::BackLieDown => assert(r@[20] == x),
                    Role::BackRise => assert(r@[21] == x),
                    Role::DeadKnockbackUp => assert(r@[22] == x),
                    Role::DeadKnockbackDown => assert(r@[23] == x),
                    Role::DeadBounceUp => assert(r@[24] == x),
                    Role::DeadBounceDown => assert(r@[25] == x),
                    Role::DeadSlide => assert(r@[26] == x),
                    Role::DeadLieDown => assert(r@[27] == x),
                    Role::DeadBackKnockbackUp => assert(r@[28] == x),
                    Role::DeadBackKnockbackDown => assert(r@[29] == x),
                    Role::DeadBackBounceUp => assert(r@[30] == x),
                    Role::DeadBackBounceDown => assert(r@[31] == x),
                    Role::DeadBackSlide => assert(r@[32] == x),
                    Role::DeadBackLieDown => assert(r@[33] == x),
                    Role::DownHit => assert(r@[34] == x),
                    Role::DownAttack => assert(r@[35] == x),
                    Role::Custom => {},
                }
            }
        }
        r
    }
}

/// How an AI picks its next target.
#[derive(Debug, Clone, Copy, PartialEq, Eq, Hash, Structural)]
pub enum TargetSelector {
    /// The closest candidate.
    Nearest,
    /// The previous target while it lives and stays on the same side, else
    /// the closest candidate.
    LastEngaged,
    /// Not implemented yet: behaves as `Nearest`.
    Random,
    /// Not implemented yet: behaves as `Nearest`.
    WeightedByThreat,
}

impl Default for TargetSelector {
    fn default() -> (r: Self)
        ensures
            r == TargetSelector::Nearest,
    {
        TargetSelector::Nearest
    }
}

/// A rectangle in sprite-image pixels plus a world-Z thickness.
#[derive(Debug, Clone, Copy, PartialEq, Eq)]
pub struct HitBox {
    pub top_left: [i32; 2],
    pub bottom_right: [i32; 2],
    pub depth: Option<u32>,
}

/// An attack box: geometry plus optional effect data `M`.
#[derive(Debug, Clone, Copy)]
pub struct AttackBox<M> {
    pub hitbox: HitBox,
    pub meta: Option<M>,
}

/// A frame's override of the sprite's attack box; a `None` field keeps the
/// sprite's value.
#[derive(Debug, Clone, Copy)]
pub struct AttackBoxOverride<M> {
    pub hitbox: Option<HitBox>,
    pub meta: Option<M>,
}

/// The sound references of a frame: `number` by default, `on_hit` /
/// `on_guard` when the current attack hit / was guarded, and a delay from
/// frame entry.
#[derive(Debug, Clone, Copy, PartialEq, Eq, Structural)]
pub struct FrameSound {
    pub number: Option<u32>,
    pub on_hit: Option<u32>,
    pub on_guard: Option<u32>,
    pub delay_ms: u32,
}

impl Default for FrameSound {
    fn default() -> (r: Self)
        ensures
            r == (FrameSound { number: None, on_hit: None, on_guard: None, delay_ms: 0 }),
    {
        FrameSound { number: None, on_hit: None, on_guard: None, delay_ms: 0 }
    }
}

/// A pivot offset as `(x, y)`; `None` is `(0, 0)`.
pub fn offset_xy(opt: Option<[i32; 2]>) -> (r: (i32, i32))
    ensures
        match opt {
            Some(a) => r == (a[0], a[1]),
            None => r == (0i32, 0i32),
        },
{
    match opt {
        Some(a) => (a[0], a[1]),
        None => (0, 0),
    }
}

/// The attack box a frame has: with no override list the sprite's first box;
/// an empty override list disables attacking; otherwise the first override
/// merged field by field over the sprite's first box, and `None` when the
/// merged box has no hitbox.
pub open spec fn spec_resolve_attack_box<M>(
    overrides: Option<Seq<AttackBoxOverride<M>>>,
    sprite_boxes: Option<Seq<AttackBox<M>>>,
) -> Option<AttackBox<M>> {
    let sprite_first = match sprite_boxes {
        Some(b) => if b.len() > 0 {
            Some(b[0])
        } else {
            None
        },
        None => None,
    };
    match overrides {
        None => sprite_first,
        Some(ov) => if ov.len() == 0 {
            None
        } else {
            let o = ov[0];
            let hitbox = match o.hitbox {
                Some(h) => Some(h),
                None => match sprite_first {
                    Some(s) => Some(s.hitbox),
                    None => None,
                },
            };
            let meta = match o.meta {
                Some(m) => Some(m),
                None => match sprite_first {
                    Some(s) => s.meta,
                    None => None,
                },
            };
            match hitbox {
                Some(h) => Some(AttackBox { hitbox: h, meta }),
                None => None,
            }
        },
    }
}

/// The effective attack box of a frame (see [`spec_resolve_attack_box`]).
pub fn resolve_attack_box<M: Copy>(
    overrides: Option<&[AttackBoxOverride<M>]>,
    sprite_boxes: Option<&[AttackBox<M>]>,
) -> (r: Option<AttackBox<M>>)
    ensures
        r == spec_resolve_attack_box(
            match overrides {
                Some(o) => Some(o@),
                None => None,
            },
            match sprite_boxes {
                Some(b) => Some(b@),
                None => None,
            },
        ),
{
    let sprite_first: Option<AttackBox<M>> = match sprite_boxes {
        Some(b) => if b.len() > 0 {
            Some(b[0])
        } else {
            None
        },
        None => None,
    };
    match overrides {
        None => sprite_first,
        Some(ov) => {
            if ov.len() == 0 {
                return None;
            }
            let o = ov[0];
            let hitbox = match o.hitbox {
                Some(h) => Some(h),
                None => match sprite_first {
                    Some(s) => Some(s.hitbox),
                    None => None,
                },
            };
            let meta = match o.meta {
                Some(m) => Some(m),
                None => match sprite_first {
                    Some(s) => s.meta,
                    None => None,
                },
            };
            match hitbox {
                Some(h) => Some(AttackBox { hitbox: h, meta }),
                None => None,
            }
        },
    }
}

/// The body boxes of a frame: the sprite's when the frame does not override
/// them (none when the sprite has none either), else the frame's list (an
/// empty list disables them).
pub fn resolve_body_boxes<'a>(overrides: Option<&'a [HitBox]>, sprite_boxes: Option<&'a [HitBox]>) -> (r: &'a [HitBox])
    ensures
        match overrides {
            Some(o) => r@ == o@,
            None => match sprite_boxes {
                Some(b) => r@ == b@,
                None => r@.len() == 0,
            },
        },
{
    match overrides {
        None => match sprite_boxes {
            Some(b) => b,
            None => &[],
        },
        Some(v) => v,
    }
}

} // verus!
