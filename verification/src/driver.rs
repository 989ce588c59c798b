//! The per-tick integration driver: reads input and physics state as plain
//! values, runs the contact classifier and the jump state machine, and
//! returns the velocity, gravity-scale and impulse writes for the host to
//! apply through the physics engine's mutation points.

use crate::contact::ContactPair;
use crate::contact::classify_ground;
use crate::contact::contacts_wf;
use crate::contact::ground_normal_spec;
use crate::fixed::FX_BOUND;
use crate::fixed::SCALE;
use crate::fixed::fx_bounded;
use crate::fixed::fx_mul;
use crate::fixed::fx_mul_spec;
use crate::player::PlayerControl;
use crate::settings::PlayerMovementSettings;
use crate::status::JumpStatus;
use crate::status::classify_jump;
use crate::status::gravity_scale_for;
use crate::status::jump_status_spec;
use crate::status::mid_jump_after;
use crate::vec2::V2;
use crate::vec2::v2_bounded;
use vstd::prelude::*;

verus! {

/// The keys the controller reads, each sampled once per tick as "currently
/// held" — no edge detection.
#[derive(Clone, Copy, Debug)]
pub struct InputState {
    pub jump_held: bool,
    pub left_held: bool,
    pub right_held: bool,
}

/// Everything one tick asks the physics engine to do for one entity.
#[derive(Clone, Copy, Debug)]
pub struct TickEffects {
    /// The jump phase selected this tick.
    pub status: JumpStatus,
    /// Per-body gravity multiplier to install.
    pub gravity_scale: i64,
    /// Vertical velocity to write back.
    pub new_vertical_velocity: i64,
    /// Magnitude of the instantaneous upward impulse, zero unless a jump
    /// starts this tick; the host scales it by the entity's mass as the
    /// engine's impulse convention requires.
    pub jump_impulse: i64,
    /// Requested horizontal direction, one whole unit at most either way; in
    /// the current tuning it is not yet turned into horizontal force.
    pub target_speed: i64,
}

/// Horizontal movement request from the held keys: one whole unit leftward
/// plus one whole unit rightward.
pub open spec fn target_speed_spec(left_held: bool, right_held: bool) -> int {
    (if right_held {
        SCALE as int
    } else {
        0
    }) - (if left_held {
        SCALE as int
    } else {
        0
    })
}

/// Computes the requested horizontal direction from the held keys.
pub fn target_speed(left_held: bool, right_held: bool) -> (r: i64)
    ensures
        r == target_speed_spec(left_held, right_held),
        -SCALE <= r <= SCALE,
{
    let mut speed: i64 = 0;
    if left_held {
        speed = speed - SCALE;
    }
    if right_held {
        speed = speed + SCALE;
    }
    speed
}

/// The direction of positive horizontal movement: the up direction turned a
/// quarter turn clockwise, exact in fixed point.
pub open spec fn movement_direction_spec(up: V2) -> V2 {
    V2 { x: up.y, y: (-(up.x as int)) as i64 }
}

/// Turns the up direction a quarter turn clockwise.
pub fn movement_direction(up: &V2) -> (r: V2)
    requires
        v2_bounded(*up),
    ensures
        r == movement_direction_spec(*up),
        v2_bounded(r),
{
    V2 { x: up.y, y: -up.x }
}

/// The vertical velocity after the `StoppingUp` side effects: braked by the
/// per-tick decay factor, then pushed down by the near-apex gravity boost
/// when the braked speed has already dropped under `start_fall_before_peak`.
pub open spec fn stopping_up_velocity_spec(
    vertical_velocity: int,
    brake_factor: int,
    start_fall_before_peak: int,
    gravity_boost: int,
    dt: int,
) -> int {
    let braked = fx_mul_spec(vertical_velocity, brake_factor);
    if braked < start_fall_before_peak {
        braked - fx_mul_spec(gravity_boost, dt)
    } else {
        braked
    }
}

/// Applies the `StoppingUp` side effects to the vertical velocity.
pub fn stopping_up_velocity(
    vertical_velocity: i64,
    brake_factor: i64,
    start_fall_before_peak: i64,
    gravity_boost: i64,
    dt: i64,
) -> (r: i64)
    requires
        fx_bounded(vertical_velocity as int),
        fx_bounded(brake_factor as int),
        fx_bounded(gravity_boost as int),
        fx_bounded(dt as int),
    ensures
        r == stopping_up_velocity_spec(
            vertical_velocity as int,
            brake_factor as int,
            start_fall_before_peak as int,
            gravity_boost as int,
            dt as int,
        ),
{
    let braked: i64 = fx_mul(vertical_velocity, brake_factor);
    if braked < start_fall_before_peak {
        braked - fx_mul(gravity_boost, dt)
    } else {
        braked
    }
}

/// One tick of the integration driver for one entity. Classifies grounding
/// from the contact set, selects the jump phase, updates the sustained-jump
/// flag, and returns the writes the host applies. `dt` is the elapsed tick
/// duration; `brake_factor` is the per-tick vertical decay, the settings'
/// jump-brake coefficient raised to `dt`, supplied by the host's clock
/// integration.
pub fn control_tick(
    settings: &PlayerMovementSettings,
    control: &mut PlayerControl,
    input: &InputState,
    contacts: &Vec<ContactPair>,
    player: u64,
    vertical_velocity: i64,
    dt: i64,
    brake_factor: i64,
) -> (effects: TickEffects)
    requires
        contacts_wf(contacts@),
        fx_bounded(vertical_velocity as int),
        fx_bounded(brake_factor as int),
        fx_bounded(settings.start_of_fall_gravity_boost as int),
        0 <= dt <= FX_BOUND,
    ensures
        effects.status == jump_status_spec(
            ground_normal_spec(contacts@, player),
            input.jump_held,
            old(control).mid_jump,
            vertical_velocity as int,
        ),
        (effects.gravity_scale == 5 * SCALE) <==> (effects.status is GoingDown),
        !(effects.status is GoingDown) ==> effects.gravity_scale == SCALE,
        final(control).mid_jump <==> (effects.status is InitiateJump || effects.status
            is GoingUp),
        final(control).last_stood_on == old(control).last_stood_on,
        final(control).stood_on_potential == old(control).stood_on_potential,
        effects.jump_impulse == (if effects.status is InitiateJump {
            settings.jump_power_coefficient as int
        } else {
            0
        }),
        effects.new_vertical_velocity == (if effects.status is StoppingUp {
            stopping_up_velocity_spec(
                vertical_velocity as int,
                brake_factor as int,
                settings.start_fall_before_peak as int,
                settings.start_of_fall_gravity_boost as int,
                dt as int,
            )
        } else {
            vertical_velocity as int
        }),
        effects.target_speed == target_speed_spec(input.left_held, input.right_held),
{
    let grounded: Option<V2> = classify_ground(contacts, player);
    let status: JumpStatus = classify_jump(
        &grounded,
        input.jump_held,
        control.mid_jump,
        vertical_velocity,
    );
    let gravity_scale: i64 = gravity_scale_for(status);
    control.mid_jump = mid_jump_after(status);
    let jump_impulse: i64 = match status {
        JumpStatus::InitiateJump => settings.jump_power_coefficient,
        _ => 0,
    };
    let new_vertical_velocity: i64 = match status {
        JumpStatus::StoppingUp => stopping_up_velocity(
            vertical_velocity,
            brake_factor,
            settings.start_fall_before_peak,
            settings.start_of_fall_gravity_boost,
            dt,
        ),
        _ => vertical_velocity,
    };
    let speed: i64 = target_speed(input.left_held, input.right_held);
    TickEffects {
        status,
        gravity_scale,
        new_vertical_velocity,
        jump_impulse,
        target_speed: speed,
    }
}

} // verus!
