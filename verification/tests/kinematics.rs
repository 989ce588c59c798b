use jump_control::fixed::SCALE;
use jump_control::fixed::fx_mul;
use jump_control::fixed::isqrt;
use jump_control::settings::PlayerMovementSettings;
use jump_control::settings::jump_power;
use jump_control::settings::setup_kinematics;
use jump_control::settings::world_gravity;

#[test]
fn scale_counts_thousandths() {
    assert_eq!(SCALE, 1000);
}

#[test]
fn stock_tuning_matches_design_parameters() {
    let settings = PlayerMovementSettings::default_tuning();
    assert_eq!(settings.jump_height, 4000);
    assert_eq!(settings.time_to_apex, 400);
    assert_eq!(settings.max_speed, 2000);
    assert_eq!(settings.jump_brake_coefficient, 20);
    assert_eq!(settings.start_fall_before_peak, 10_000);
    assert_eq!(settings.start_of_fall_gravity_boost, 30_000);
    assert_eq!(settings.jump_power_coefficient, 0);
}

#[test]
fn gravity_for_four_metres_in_point_four_seconds_is_fifty() {
    // g = -(2 * 4.0) / 0.4^2 = -50.0
    assert_eq!(world_gravity(4000, 400), -50_000);
}

#[test]
fn jump_power_for_stock_gravity_is_twenty() {
    // v0 = sqrt(2 * 50.0 * 4.0) = 20.0
    assert_eq!(jump_power(50_000, 4000), 20_000);
}

#[test]
fn setup_backfills_jump_power_and_returns_gravity() {
    let mut settings = PlayerMovementSettings::default_tuning();
    let gravity = setup_kinematics(&mut settings);
    assert_eq!(gravity, -50_000);
    assert_eq!(settings.jump_power_coefficient, 20_000);
    // Every designed field is untouched.
    assert_eq!(settings.jump_height, 4000);
    assert_eq!(settings.time_to_apex, 400);
    assert_eq!(settings.max_speed, 2000);
}

#[test]
fn isqrt_exact_and_rounded_values() {
    assert_eq!(isqrt(0), 0);
    assert_eq!(isqrt(1), 1);
    assert_eq!(isqrt(15), 3);
    assert_eq!(isqrt(16), 4);
    assert_eq!(isqrt(400_000_000), 20_000);
    assert_eq!(isqrt(u64::MAX), 4_294_967_295);
}

#[test]
fn fixed_point_products_truncate_toward_zero() {
    assert_eq!(fx_mul(10_000, 20), 200);
    assert_eq!(fx_mul(-10_000, 20), -200);
    assert_eq!(fx_mul(10_000, -20), -200);
    assert_eq!(fx_mul(-10_000, -20), 200);
    assert_eq!(fx_mul(5, 100), 0);
    assert_eq!(fx_mul(-5, 100), 0);
    assert_eq!(fx_mul(1500, 1500), 2250);
}
