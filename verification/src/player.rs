//! Per-entity movement state: the one bit of history the controller keeps
//! between ticks, plus the spawn-time initial value.

use crate::fixed::SCALE;
use crate::vec2::V2;
use vstd::prelude::*;

verus! {

/// Per-entity mutable movement state, created at spawn and owned exclusively
/// by its entity for the entity's whole lifetime. Only `mid_jump` feeds back
/// into the controller; the other two fields are tracked for future slope
/// handling and are read by no force computation yet.
#[derive(Clone, Debug)]
pub struct PlayerControl {
    /// True while the upward phase of a jump is actively sustained by held
    /// input.
    pub mid_jump: bool,
    /// Last known ground-contact normal.
    pub last_stood_on: V2,
    /// Blending weight toward `last_stood_on`.
    pub stood_on_potential: i64,
}

impl PlayerControl {
    /// The state a freshly spawned player starts with: not mid-jump, last
    /// stood on level ground.
    pub fn new() -> (c: Self)
        ensures
            !c.mid_jump,
            c.last_stood_on == (V2 { x: 0, y: SCALE }),
            c.stood_on_potential == 0,
    {
        PlayerControl {
            mid_jump: false,
            last_stood_on: V2 { x: 0, y: SCALE },
            stood_on_potential: 0,
        }
    }
}

} // verus!
