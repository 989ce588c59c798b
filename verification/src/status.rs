//! The jump state machine: five phases, recomputed every tick from fresh
//! sensor data, plus the gravity-scale and sustained-jump tables the driver
//! applies for each phase.

use crate::fixed::SCALE;
use crate::vec2::V2;
use vstd::prelude::*;

verus! {

/// The five jump phases. A phase is ephemeral: it is derived each tick and
/// never stored, so a bad single-tick decision heals on the next tick.
#[derive(Clone, Copy, Debug, PartialEq, Eq, Structural)]
pub enum JumpStatus {
    CanJump,
    InitiateJump,
    GoingUp,
    StoppingUp,
    GoingDown,
}

/// The transition policy, first match wins: grounding outranks everything,
/// then the airborne inputs split on the sign of the vertical velocity.
pub open spec fn jump_status_spec(
    grounded: Option<V2>,
    jump_held: bool,
    mid_jump: bool,
    vertical_velocity: int,
) -> JumpStatus {
    if grounded is Some {
        if jump_held {
            JumpStatus::InitiateJump
        } else {
            JumpStatus::CanJump
        }
    } else if vertical_velocity >= 0 {
        if jump_held && mid_jump {
            JumpStatus::GoingUp
        } else {
            JumpStatus::StoppingUp
        }
    } else {
        JumpStatus::GoingDown
    }
}

/// Selects the jump phase for this tick from the grounding result, the jump
/// key, the sustained-jump flag and the current vertical velocity.
pub fn classify_jump(
    grounded: &Option<V2>,
    jump_held: bool,
    mid_jump: bool,
    vertical_velocity: i64,
) -> (status: JumpStatus)
    ensures
        status == jump_status_spec(*grounded, jump_held, mid_jump, vertical_velocity as int),
{
    if grounded.is_some() {
        if jump_held {
            JumpStatus::InitiateJump
        } else {
            JumpStatus::CanJump
        }
    } else if vertical_velocity >= 0 {
        if jump_held && mid_jump {
            JumpStatus::GoingUp
        } else {
            JumpStatus::StoppingUp
        }
    } else {
        JumpStatus::GoingDown
    }
}

/// Per-body gravity multiplier for a phase: five whole units while falling,
/// one whole unit in every other phase.
pub fn gravity_scale_for(status: JumpStatus) -> (scale: i64)
    ensures
        (scale == 5 * SCALE) <==> (status is GoingDown),
        !(status is GoingDown) ==> scale == SCALE,
{
    match status {
        JumpStatus::GoingDown => 5 * SCALE,
        _ => SCALE,
    }
}

/// The sustained-jump flag after a phase's side effects: set while the upward
/// part of a jump is actively sustained, cleared in every other phase.
pub fn mid_jump_after(status: JumpStatus) -> (flag: bool)
    ensures
        flag <==> (status is InitiateJump || status is GoingUp),
{
    match status {
        JumpStatus::InitiateJump | JumpStatus::GoingUp => true,
        _ => false,
    }
}

/// Grounding takes priority over airborne logic: on every grounded input the
/// phase is `InitiateJump` when the jump key is held, and `CanJump` when it
/// is not, whatever the vertical velocity and the sustained-jump flag say.
pub proof fn lemma_grounded_priority(
    grounded: Option<V2>,
    jump_held: bool,
    mid_jump: bool,
    vertical_velocity: int,
)
    requires
        grounded is Some,
    ensures
        jump_held ==> jump_status_spec(grounded, jump_held, mid_jump, vertical_velocity)
            == JumpStatus::InitiateJump,
        !jump_held ==> jump_status_spec(grounded, jump_held, mid_jump, vertical_velocity)
            == JumpStatus::CanJump,
{
}

/// The airborne phases partition the airborne inputs exhaustively and
/// exclusively: a non-negative vertical velocity with the jump key held and
/// the sustained-jump flag set is exactly `GoingUp`; a non-negative vertical
/// velocity otherwise is exactly `StoppingUp`; a negative vertical velocity
/// is exactly `GoingDown`.
pub proof fn lemma_airborne_partition(
    grounded: Option<V2>,
    jump_held: bool,
    mid_jump: bool,
    vertical_velocity: int,
)
    requires
        grounded is None,
    ensures
        (jump_status_spec(grounded, jump_held, mid_jump, vertical_velocity) == JumpStatus::GoingUp)
            <==> (vertical_velocity >= 0 && jump_held && mid_jump),
        (jump_status_spec(grounded, jump_held, mid_jump, vertical_velocity)
            == JumpStatus::StoppingUp) <==> (vertical_velocity >= 0 && !(jump_held && mid_jump)),
        (jump_status_spec(grounded, jump_held, mid_jump, vertical_velocity)
            == JumpStatus::GoingDown) <==> (vertical_velocity < 0),
{
}

} // verus!
