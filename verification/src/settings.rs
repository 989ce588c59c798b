//! Tunable movement constants and the startup kinematics that derive world
//! gravity and the initial jump speed from the two design parameters, the
//! desired apex height and the desired time to apex.

use crate::fixed::FX_BOUND;
use crate::fixed::SCALE;
use crate::fixed::isqrt;
use vstd::prelude::*;

verus! {

/// The tunable movement constants, each a fixed-point scalar. The record is
/// read-only during play: an external tuner may rewrite it between ticks, and
/// the driver reads it fresh on every tick. `jump_power_coefficient` is
/// derived, not designed: it stays zero until `setup_kinematics` backfills it
/// once at startup.
#[derive(Clone, Copy, Debug, PartialEq, Eq, Structural)]
pub struct PlayerMovementSettings {
    /// Desired apex height of a jump, in metres.
    pub jump_height: i64,
    /// Desired time to reach the apex, in seconds.
    pub time_to_apex: i64,
    pub max_speed: i64,
    pub impulse_exponent: i64,
    pub impulse_coefficient: i64,
    /// Initial upward speed of a jump, derived at startup so that the jump
    /// reaches `jump_height` under the derived gravity.
    pub jump_power_coefficient: i64,
    /// Per-second retention of upward speed while a jump is released early.
    pub jump_brake_coefficient: i64,
    /// Braked upward speed under which the near-apex gravity boost cuts in.
    pub start_fall_before_peak: i64,
    pub start_of_fall_range: i64,
    /// Extra downward acceleration near the apex, per second.
    pub start_of_fall_gravity_boost: i64,
    pub fall_boost_coefficient: i64,
    pub stood_on_time_coefficient: i64,
    pub uphill_move_exponent: i64,
    pub downhill_brake_exponent: i64,
}

/// The stock tuning: a four-metre jump that reaches its apex in two fifths
/// of a second.
pub open spec fn stock_tuning() -> PlayerMovementSettings {
    PlayerMovementSettings {
        jump_height: 4000,
        time_to_apex: 400,
        max_speed: 2000,
        impulse_exponent: 4000,
        impulse_coefficient: 40_000_000,
        jump_power_coefficient: 0,
        jump_brake_coefficient: 20,
        start_fall_before_peak: 10_000,
        start_of_fall_range: 10_000,
        start_of_fall_gravity_boost: 30_000,
        fall_boost_coefficient: 1060,
        stood_on_time_coefficient: 10_000,
        uphill_move_exponent: 500,
        downhill_brake_exponent: 1000,
    }
}

impl PlayerMovementSettings {
    /// Builds the stock tuning.
    pub fn default_tuning() -> (s: Self)
        ensures
            s == stock_tuning(),
    {
        PlayerMovementSettings {
            jump_height: 4000,
            time_to_apex: 400,
            max_speed: 2000,
            impulse_exponent: 4000,
            impulse_coefficient: 40_000_000,
            jump_power_coefficient: 0,
            jump_brake_coefficient: 20,
            start_fall_before_peak: 10_000,
            start_of_fall_range: 10_000,
            start_of_fall_gravity_boost: 30_000,
            fall_boost_coefficient: 1060,
            stood_on_time_coefficient: 10_000,
            uphill_move_exponent: 500,
            downhill_brake_exponent: 1000,
        }
    }
}

/// The world gravity that lets a jump of height `h` reach its apex after
/// time `t`: `-(2*h)/t^2`, carried out in fixed point, truncated.
pub open spec fn gravity_spec(jump_height: int, time_to_apex: int) -> int
    recommends
        time_to_apex > 0,
{
    -((2 * jump_height * SCALE * SCALE) / (time_to_apex * time_to_apex))
}

/// Computes the world gravity for a jump height and a time to apex.
pub fn world_gravity(jump_height: i64, time_to_apex: i64) -> (g: i64)
    requires
        0 <= jump_height <= FX_BOUND,
        0 < time_to_apex <= FX_BOUND,
    ensures
        g == gravity_spec(jump_height as int, time_to_apex as int),
        -2 * FX_BOUND * SCALE * SCALE <= g <= 0,
{
    proof {
        assert(1 <= time_to_apex as int * time_to_apex as int <= FX_BOUND * FX_BOUND)
            by (nonlinear_arith)
            requires
                0 < time_to_apex <= FX_BOUND,
        ;
        assert(0 <= 2 * (jump_height as int) * (SCALE as int) * (SCALE as int)
            <= 2 * FX_BOUND * SCALE * SCALE) by (nonlinear_arith)
            requires
                0 <= jump_height <= FX_BOUND,
        ;
    }
    let num: u64 = 2 * (jump_height as u64) * (SCALE as u64) * (SCALE as u64);
    let den: u64 = (time_to_apex as u64) * (time_to_apex as u64);
    let q: u64 = num / den;
    proof {
        vstd::arithmetic::div_mod::lemma_div_nonincreasing(num as int, den as int);
    }
    -(q as i64)
}

/// The initial upward speed that reaches `jump_height` under gravity of
/// magnitude `gravity_magnitude`: solved from `v0^2 = 2*|g|*h`. The square
/// is exact in fixed point, since scaling `g` and `h` up by `SCALE` each
/// scales `v0^2` up by `SCALE` squared.
pub fn jump_power(gravity_magnitude: i64, jump_height: i64) -> (v: i64)
    requires
        0 <= gravity_magnitude,
        0 <= jump_height,
        2 * gravity_magnitude * jump_height <= u64::MAX,
    ensures
        v * v <= 2 * gravity_magnitude * jump_height < (v + 1) * (v + 1),
        0 <= v < 0x1_0000_0000,
{
    proof {
        assert(gravity_magnitude as int * jump_height as int >= 0
            && 2 * (gravity_magnitude as int * jump_height as int)
            == 2 * gravity_magnitude * jump_height) by (nonlinear_arith)
            requires
                0 <= gravity_magnitude,
                0 <= jump_height,
        ;
    }
    let square: u64 = 2 * ((gravity_magnitude as u64) * (jump_height as u64));
    isqrt(square) as i64
}

/// Startup kinematics, run once before the first tick: derives the world
/// gravity from the settings' jump height and time to apex, backfills
/// `jump_power_coefficient` with the matching initial upward speed, and
/// returns the gravity for the host to install in its physics configuration.
/// Both derivations read the same height/time pair, so the two constants are
/// consistent by construction.
pub fn setup_kinematics(settings: &mut PlayerMovementSettings) -> (gravity: i64)
    requires
        0 <= old(settings).jump_height <= FX_BOUND,
        0 < old(settings).time_to_apex <= FX_BOUND,
        2 * (-gravity_spec(
            old(settings).jump_height as int,
            old(settings).time_to_apex as int,
        )) * old(settings).jump_height <= u64::MAX,
    ensures
        gravity == gravity_spec(
            old(settings).jump_height as int,
            old(settings).time_to_apex as int,
        ),
        final(settings).jump_power_coefficient * final(settings).jump_power_coefficient
            <= 2 * (-gravity) * old(settings).jump_height
            < (final(settings).jump_power_coefficient + 1) * (final(settings).jump_power_coefficient
            + 1),
        0 <= final(settings).jump_power_coefficient < 0x1_0000_0000,
        *final(settings) == (PlayerMovementSettings {
            jump_power_coefficient: final(settings).jump_power_coefficient,
            ..*old(settings)
        }),
{
    let gravity: i64 = world_gravity(settings.jump_height, settings.time_to_apex);
    let power: i64 = jump_power(-gravity, settings.jump_height);
    settings.jump_power_coefficient = power;
    gravity
}

} // verus!
