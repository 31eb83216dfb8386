//! Flip modes of sprites, animations and layers.
//!
//! Two levels of flip (frame and layer) compose by XOR: flipping twice
//! restores the unflipped orientation.
use vstd::prelude::*;

verus! {

/// Mirror mode written as `flip: horizontal | vertical | both` in YAML; an
/// absent value means no flip.
#[derive(Debug, Clone, Copy, PartialEq, Eq, Structural)]
pub enum FlipMode {
    Horizontal,
    Vertical,
    Both,
}

/// Whether `mode` mirrors the x axis.
pub open spec fn spec_flips_x(mode: FlipMode) -> bool {
    mode == FlipMode::Horizontal || mode == FlipMode::Both
}

/// Whether `mode` mirrors the y axis.
pub open spec fn spec_flips_y(mode: FlipMode) -> bool {
    mode == FlipMode::Vertical || mode == FlipMode::Both
}

/// x mirroring of an optional mode, `None` meaning no flip.
pub open spec fn spec_flip_x_of(opt: Option<FlipMode>) -> bool {
    match opt {
        Some(m) => spec_flips_x(m),
        None => false,
    }
}

/// y mirroring of an optional mode, `None` meaning no flip.
pub open spec fn spec_flip_y_of(opt: Option<FlipMode>) -> bool {
    match opt {
        Some(m) => spec_flips_y(m),
        None => false,
    }
}

impl FlipMode {
    pub fn flips_x(self) -> (r: bool)
        ensures
            r == spec_flips_x(self),
            // Horizontal and both mirror x; vertical does not.
            r <==> (self == FlipMode::Horizontal || self == FlipMode::Both),
    {
        match self {
            FlipMode::Horizontal | FlipMode::Both => true,
            FlipMode::Vertical => false,
        }
    }

    pub fn flips_y(self) -> (r: bool)
        ensures
            r == spec_flips_y(self),
            // Vertical and both mirror y; horizontal does not.
            r <==> (self == FlipMode::Vertical || self == FlipMode::Both),
    {
        match self {
            FlipMode::Vertical | FlipMode::Both => true,
            FlipMode::Horizontal => false,
        }
    }
}

/// x flag of an optional flip, treating `None` as "no flip".
pub fn flip_x_of(opt: Option<FlipMode>) -> (r: bool)
    ensures
        r == spec_flip_x_of(opt),
        r <==> (opt == Some(FlipMode::Horizontal) || opt == Some(FlipMode::Both)),
{
    match opt {
        Some(m) => m.flips_x(),
        None => false,
    }
}

/// y flag of an optional flip, treating `None` as "no flip".
pub fn flip_y_of(opt: Option<FlipMode>) -> (r: bool)
    ensures
        r == spec_flip_y_of(opt),
        r <==> (opt == Some(FlipMode::Vertical) || opt == Some(FlipMode::Both)),
{
    match opt {
        Some(m) => m.flips_y(),
        None => false,
    }
}

/// Composing a frame flip and a layer flip by XOR is symmetric, and applying
/// the same flip on both levels cancels out.
pub proof fn lemma_flip_composition_cancels(frame: Option<FlipMode>, layer: Option<FlipMode>)
    ensures
        (spec_flip_x_of(frame) != spec_flip_x_of(layer)) == (spec_flip_x_of(layer)
            != spec_flip_x_of(frame)),
        frame == layer ==> !(spec_flip_x_of(frame) != spec_flip_x_of(layer)),
        frame == layer ==> !(spec_flip_y_of(frame) != spec_flip_y_of(layer)),
{
}

} // verus!
