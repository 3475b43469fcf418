//! The scalar movement rules, exercised directly.

use juicy_game::components::InputState;
use juicy_game::draw::ease_argument_exec;
use juicy_game::physics::{breath_step_exec, velocity_step_x_exec};

fn no_keys() -> InputState {
    InputState { left: false, right: false }
}

#[test]
fn acceleration_clamps_near_the_limit() {
    assert_eq!(velocity_step_x_exec(4800, InputState { left: false, right: true }), 5000);
    assert_eq!(velocity_step_x_exec(-4800, InputState { left: true, right: false }), -5000);
    assert_eq!(velocity_step_x_exec(0, InputState { left: false, right: true }), 500);
    assert_eq!(velocity_step_x_exec(0, InputState { left: true, right: false }), -500);
}

#[test]
fn friction_removes_at_most_half_a_unit() {
    assert_eq!(velocity_step_x_exec(5000, no_keys()), 4500);
    assert_eq!(velocity_step_x_exec(300, no_keys()), 0);
    assert_eq!(velocity_step_x_exec(-300, no_keys()), 0);
    assert_eq!(velocity_step_x_exec(0, no_keys()), 0);
    assert_eq!(velocity_step_x_exec(500, no_keys()), 0);
    assert_eq!(velocity_step_x_exec(-501, no_keys()), -1);
}

#[test]
fn breath_step_wraps_at_the_period() {
    assert_eq!(breath_step_exec(0), 10);
    assert_eq!(breath_step_exec(980), 990);
    assert_eq!(breath_step_exec(990), 0);
    assert_eq!(breath_step_exec(995), 5);
}

#[test]
fn ease_argument_is_distance_from_mid_phase() {
    assert_eq!(ease_argument_exec(0), 1000);
    assert_eq!(ease_argument_exec(250), 500);
    assert_eq!(ease_argument_exec(500), 0);
    assert_eq!(ease_argument_exec(990), 980);
}
