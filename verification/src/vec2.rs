//! Plane vectors with fixed-point coordinates: contact normals, the world-up
//! direction, and the dot products the contact classifier ranks normals by.

use crate::fixed::FX_BOUND;
use crate::fixed::SCALE;
use crate::fixed::fx_bounded;
use vstd::prelude::*;

verus! {

/// A 2D vector of fixed-point coordinates.
#[derive(Clone, Copy, Debug, PartialEq, Eq, Structural)]
pub struct V2 {
    pub x: i64,
    pub y: i64,
}

/// Both coordinates small enough to take part in products.
pub open spec fn v2_bounded(v: V2) -> bool {
    fx_bounded(v.x as int) && fx_bounded(v.y as int)
}

/// The world-up direction: one whole unit along the y axis.
pub open spec fn world_up() -> V2 {
    V2 { x: 0, y: SCALE }
}

/// Returns the world-up vector.
pub fn up_vector() -> (r: V2)
    ensures
        r == world_up(),
        v2_bounded(r),
{
    V2 { x: 0, y: SCALE }
}

/// Dot product, left at `SCALE` times its fixed-point value. The scaling is
/// the same for every operand pair, so alignment comparisons may use it as
/// it stands.
pub open spec fn dot_scaled_spec(a: V2, b: V2) -> int {
    a.x * b.x + a.y * b.y
}

/// Computes the scaled dot product of two bounded vectors.
pub fn dot_scaled(a: &V2, b: &V2) -> (r: i64)
    requires
        v2_bounded(*a),
        v2_bounded(*b),
    ensures
        r == dot_scaled_spec(*a, *b),
{
    proof {
        assert(-(FX_BOUND * FX_BOUND) <= a.x as int * b.x as int <= FX_BOUND * FX_BOUND)
            by (nonlinear_arith)
            requires
                fx_bounded(a.x as int),
                fx_bounded(b.x as int),
        ;
        assert(-(FX_BOUND * FX_BOUND) <= a.y as int * b.y as int <= FX_BOUND * FX_BOUND)
            by (nonlinear_arith)
            requires
                fx_bounded(a.y as int),
                fx_bounded(b.y as int),
        ;
    }
    a.x * b.x + a.y * b.y
}

/// Componentwise negation.
pub open spec fn neg_spec(v: V2) -> V2 {
    V2 { x: (-(v.x as int)) as i64, y: (-(v.y as int)) as i64 }
}

/// Negates a bounded vector.
pub fn neg(v: &V2) -> (r: V2)
    requires
        v2_bounded(*v),
    ensures
        r == neg_spec(*v),
        v2_bounded(r),
{
    V2 { x: -v.x, y: -v.y }
}

} // verus!
