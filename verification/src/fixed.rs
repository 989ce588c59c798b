//! Fixed-point scalars: every physical quantity is an `i64` counting
//! thousandths of its unit, so velocity decay, kinematics and contact
//! geometry stay in exact integer arithmetic.

use vstd::prelude::*;

verus! {

/// Fixed-point steps per whole unit.
pub const SCALE: i64 = 1000;

/// Largest magnitude an operand of a fixed-point product may have.
/// The product of two bounded operands then fits an `i64` with room to spare.
pub const FX_BOUND: i64 = 0x4000_0000;

/// Largest magnitude a fixed-point product of two bounded operands may have:
/// `FX_BOUND * FX_BOUND / SCALE`, rounded up.
pub const FX_PRODUCT_BOUND: i64 = 1_152_921_504_606_847;

/// A fixed-point scalar small enough to take part in products.
pub open spec fn fx_bounded(a: int) -> bool {
    -FX_BOUND <= a <= FX_BOUND
}

/// Magnitude of a mathematical integer.
pub open spec fn abs_int(a: int) -> int {
    if a >= 0 {
        a
    } else {
        -a
    }
}

/// Fixed-point product: the mathematical product scaled back down by `SCALE`,
/// truncated toward zero.
pub open spec fn fx_mul_spec(a: int, b: int) -> int {
    if a * b >= 0 {
        (a * b) / (SCALE as int)
    } else {
        -((-(a * b)) / (SCALE as int))
    }
}

/// Multiplies two fixed-point scalars, scaling the result back down.
pub fn fx_mul(a: i64, b: i64) -> (r: i64)
    requires
        fx_bounded(a as int),
        fx_bounded(b as int),
    ensures
        r == fx_mul_spec(a as int, b as int),
        abs_int(r as int) <= FX_PRODUCT_BOUND,
{
    let negative: bool = (a < 0) != (b < 0);
    let ma: u64 = if a < 0 {
        (-a) as u64
    } else {
        a as u64
    };
    let mb: u64 = if b < 0 {
        (-b) as u64
    } else {
        b as u64
    };
    proof {
        assert(ma * mb == abs_int(a as int * b as int) && ma * mb <= FX_BOUND * FX_BOUND)
            by (nonlinear_arith)
            requires
                ma == abs_int(a as int),
                mb == abs_int(b as int),
                fx_bounded(a as int),
                fx_bounded(b as int),
        ;
    }
    let p: u64 = (ma * mb) / (SCALE as u64);
    proof {
        vstd::arithmetic::div_mod::lemma_div_is_ordered(
            ma * mb,
            FX_BOUND * FX_BOUND,
            SCALE as int,
        );
        assert(FX_BOUND * FX_BOUND / (SCALE as int) <= FX_PRODUCT_BOUND);
        assert(negative ==> a as int * b as int <= 0) by (nonlinear_arith)
            requires
                negative == ((a < 0) != (b < 0)),
        ;
        assert(!negative ==> a as int * b as int >= 0) by (nonlinear_arith)
            requires
                negative == ((a < 0) != (b < 0)),
        ;
        assert(0int / (SCALE as int) == 0);
    }
    if negative {
        -(p as i64)
    } else {
        p as i64
    }
}

/// Integer square root: the greatest `r` with `r * r <= x`.
pub fn isqrt(x: u64) -> (r: u64)
    ensures
        r * r <= x < (r + 1) * (r + 1),
        r < 0x1_0000_0000,
{
    let mut lo: u64 = 0;
    let mut hi: u64 = 0xffff_ffff;
    proof {
        assert(x < 0x1_0000_0000u64 * 0x1_0000_0000u64) by (nonlinear_arith)
            requires
                x <= u64::MAX,
        ;
    }
    while lo < hi
        invariant
            lo <= hi <= 0xffff_ffff,
            lo * lo <= x,
            x < (hi + 1) * (hi + 1),
        decreases hi - lo,
    {
        let mid: u64 = lo + (hi - lo + 1) / 2;
        proof {
            assert(lo < mid <= hi);
            assert(mid * mid <= 0xffff_ffffu64 * 0xffff_ffffu64) by (nonlinear_arith)
                requires
                    mid <= 0xffff_ffffu64,
            ;
        }
        if mid * mid <= x {
            lo = mid;
        } else {
            hi = mid - 1;
        }
    }
    lo
}

} // verus!
