//! Logical player identifier (`p1` … `p4` in YAML), shared by the HUD
//! configuration and the character markers.
use vstd::prelude::*;

verus! {

/// A local player slot; up to four players.
#[derive(Debug, Clone, Copy, PartialEq, Eq, Hash, Structural)]
pub enum PlayerId {
    P1,
    P2,
    P3,
    P4,
}

impl Default for PlayerId {
    fn default() -> (r: Self)
        ensures
            r == PlayerId::P1,
    {
        PlayerId::P1
    }
}

} // verus!
