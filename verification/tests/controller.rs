use jump_control::contact::ContactPair;
use jump_control::contact::Manifold;
use jump_control::contact::classify_ground;
use jump_control::contact::oriented_normal;
use jump_control::driver::InputState;
use jump_control::driver::control_tick;
use jump_control::driver::movement_direction;
use jump_control::driver::stopping_up_velocity;
use jump_control::driver::target_speed;
use jump_control::player::PlayerControl;
use jump_control::settings::PlayerMovementSettings;
use jump_control::settings::setup_kinematics;
use jump_control::status::JumpStatus;
use jump_control::status::classify_jump;
use jump_control::status::gravity_scale_for;
use jump_control::status::mid_jump_after;
use jump_control::vec2::V2;

const PLAYER: u64 = 7;

fn flat_ground_contact(player_is_second: bool, normal: V2) -> ContactPair {
    let manifold = if player_is_second {
        Manifold {
            first_body: Some(99),
            second_body: Some(PLAYER),
            normal,
        }
    } else {
        Manifold {
            first_body: Some(PLAYER),
            second_body: Some(99),
            normal,
        }
    };
    ContactPair {
        has_any_active_contact: true,
        manifolds: vec![manifold],
    }
}

#[test]
fn grounded_with_jump_held_initiates_jump() {
    let grounded = Some(V2 { x: 0, y: 1000 });
    assert_eq!(
        classify_jump(&grounded, true, false, 0),
        JumpStatus::InitiateJump
    );
    assert_eq!(
        classify_jump(&grounded, true, true, -500),
        JumpStatus::InitiateJump
    );
}

#[test]
fn grounded_without_jump_held_can_jump() {
    let grounded = Some(V2 { x: 0, y: 1000 });
    assert_eq!(classify_jump(&grounded, false, false, 0), JumpStatus::CanJump);
    assert_eq!(
        classify_jump(&grounded, false, true, 2000),
        JumpStatus::CanJump
    );
}

#[test]
fn airborne_partition_is_exhaustive() {
    assert_eq!(classify_jump(&None, true, true, 0), JumpStatus::GoingUp);
    assert_eq!(classify_jump(&None, true, true, 300), JumpStatus::GoingUp);
    assert_eq!(classify_jump(&None, true, false, 300), JumpStatus::StoppingUp);
    assert_eq!(classify_jump(&None, false, true, 300), JumpStatus::StoppingUp);
    assert_eq!(classify_jump(&None, false, false, 0), JumpStatus::StoppingUp);
    assert_eq!(classify_jump(&None, true, true, -1), JumpStatus::GoingDown);
    assert_eq!(classify_jump(&None, false, false, -900), JumpStatus::GoingDown);
}

#[test]
fn gravity_scale_is_five_exactly_when_going_down() {
    assert_eq!(gravity_scale_for(JumpStatus::GoingDown), 5000);
    assert_eq!(gravity_scale_for(JumpStatus::CanJump), 1000);
    assert_eq!(gravity_scale_for(JumpStatus::InitiateJump), 1000);
    assert_eq!(gravity_scale_for(JumpStatus::GoingUp), 1000);
    assert_eq!(gravity_scale_for(JumpStatus::StoppingUp), 1000);
}

#[test]
fn mid_jump_flag_transition_table() {
    assert!(mid_jump_after(JumpStatus::InitiateJump));
    assert!(mid_jump_after(JumpStatus::GoingUp));
    assert!(!mid_jump_after(JumpStatus::CanJump));
    assert!(!mid_jump_after(JumpStatus::StoppingUp));
    assert!(!mid_jump_after(JumpStatus::GoingDown));
}

#[test]
fn classifier_selects_most_upward_normal() {
    let contacts = vec![
        flat_ground_contact(true, V2 { x: 100, y: 990 }),
        flat_ground_contact(true, V2 { x: 0, y: 1000 }),
    ];
    assert_eq!(classify_ground(&contacts, PLAYER), Some(V2 { x: 0, y: 1000 }));
}

#[test]
fn classifier_breaks_ties_without_error() {
    let contacts = vec![
        flat_ground_contact(true, V2 { x: 0, y: 1000 }),
        flat_ground_contact(true, V2 { x: 0, y: 1000 }),
    ];
    assert_eq!(classify_ground(&contacts, PLAYER), Some(V2 { x: 0, y: 1000 }));
}

#[test]
fn classifier_negates_normal_when_player_is_first_body() {
    let contacts = vec![flat_ground_contact(false, V2 { x: 0, y: -1000 })];
    assert_eq!(classify_ground(&contacts, PLAYER), Some(V2 { x: 0, y: 1000 }));
}

#[test]
fn oriented_normal_skips_unrelated_manifold() {
    let manifold = Manifold {
        first_body: Some(3),
        second_body: Some(4),
        normal: V2 { x: 0, y: 1000 },
    };
    assert_eq!(oriented_normal(&manifold, PLAYER), None);
}

#[test]
fn classifier_reports_airborne_without_contacts() {
    let contacts: Vec<ContactPair> = Vec::new();
    assert_eq!(classify_ground(&contacts, PLAYER), None);
}

#[test]
fn classifier_excludes_inactive_pairs() {
    let mut pair = flat_ground_contact(true, V2 { x: 0, y: 1000 });
    pair.has_any_active_contact = false;
    let contacts = vec![pair];
    assert_eq!(classify_ground(&contacts, PLAYER), None);
}

#[test]
fn classifier_is_idempotent() {
    let contacts = vec![
        flat_ground_contact(true, V2 { x: 100, y: 990 }),
        flat_ground_contact(false, V2 { x: 0, y: -1000 }),
    ];
    let first = classify_ground(&contacts, PLAYER);
    let second = classify_ground(&contacts, PLAYER);
    assert_eq!(first, second);
}

#[test]
fn stopping_up_brakes_before_boost_check() {
    // An upward speed of 10 braked by a factor of 0.02 over one second leaves
    // 0.2 before the near-apex boost is considered.
    assert_eq!(stopping_up_velocity(10_000, 20, 100, 30_000, 1000), 200);
}

#[test]
fn stopping_up_adds_gravity_boost_under_threshold() {
    // Braked speed 0.2 is under the 10.0 threshold, so the 30.0 boost over
    // one second pulls the velocity down to -29.8.
    assert_eq!(stopping_up_velocity(10_000, 20, 10_000, 30_000, 1000), -29_800);
}

#[test]
fn target_speed_spans_minus_one_to_one() {
    assert_eq!(target_speed(false, false), 0);
    assert_eq!(target_speed(true, false), -1000);
    assert_eq!(target_speed(false, true), 1000);
    assert_eq!(target_speed(true, true), 0);
}

#[test]
fn movement_direction_is_up_turned_clockwise() {
    let up = V2 { x: 0, y: 1000 };
    assert_eq!(movement_direction(&up), V2 { x: 1000, y: 0 });
}

#[test]
fn player_spawns_not_mid_jump_on_level_ground() {
    let control = PlayerControl::new();
    assert!(!control.mid_jump);
    assert_eq!(control.last_stood_on, V2 { x: 0, y: 1000 });
    assert_eq!(control.stood_on_potential, 0);
}

#[test]
fn tick_on_ground_with_jump_held_applies_jump_impulse() {
    let mut settings = PlayerMovementSettings::default_tuning();
    setup_kinematics(&mut settings);
    let mut control = PlayerControl::new();
    let input = InputState {
        jump_held: true,
        left_held: false,
        right_held: false,
    };
    let contacts = vec![flat_ground_contact(true, V2 { x: 0, y: 1000 })];
    let effects = control_tick(&settings, &mut control, &input, &contacts, PLAYER, 0, 16, 937);
    assert_eq!(effects.status, JumpStatus::InitiateJump);
    assert_eq!(effects.jump_impulse, 20_000);
    assert_eq!(effects.gravity_scale, 1000);
    assert_eq!(effects.new_vertical_velocity, 0);
    assert!(control.mid_jump);
}

#[test]
fn tick_while_falling_scales_gravity_up() {
    let mut settings = PlayerMovementSettings::default_tuning();
    setup_kinematics(&mut settings);
    let mut control = PlayerControl::new();
    control.mid_jump = true;
    let input = InputState {
        jump_held: false,
        left_held: true,
        right_held: false,
    };
    let contacts: Vec<ContactPair> = Vec::new();
    let effects = control_tick(
        &settings,
        &mut control,
        &input,
        &contacts,
        PLAYER,
        -3000,
        16,
        937,
    );
    assert_eq!(effects.status, JumpStatus::GoingDown);
    assert_eq!(effects.gravity_scale, 5000);
    assert_eq!(effects.jump_impulse, 0);
    assert_eq!(effects.new_vertical_velocity, -3000);
    assert_eq!(effects.target_speed, -1000);
    assert!(!control.mid_jump);
}

#[test]
fn tick_with_jump_released_early_brakes_ascent() {
    let mut settings = PlayerMovementSettings::default_tuning();
    setup_kinematics(&mut settings);
    let mut control = PlayerControl::new();
    control.mid_jump = true;
    let input = InputState {
        jump_held: false,
        left_held: false,
        right_held: false,
    };
    let contacts: Vec<ContactPair> = Vec::new();
    let effects = control_tick(
        &settings,
        &mut control,
        &input,
        &contacts,
        PLAYER,
        10_000,
        1000,
        20,
    );
    assert_eq!(effects.status, JumpStatus::StoppingUp);
    // Braked to 0.2, then boosted down by 30.0 over the full second.
    assert_eq!(effects.new_vertical_velocity, -29_800);
    assert!(!control.mid_jump);
}
