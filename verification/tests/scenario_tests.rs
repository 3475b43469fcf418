//! Frame-by-frame scenarios of the update system.

use juicy_game::components::{
    ClipHandle, InputState, PlayerAnimation, PlayerState, Position, TextureHandle, Velocity,
};
use juicy_game::anim::player_run_clip;
use juicy_game::geom::Vec2m;
use juicy_game::world::{initial_world, World};

fn no_keys() -> InputState {
    InputState { left: false, right: false }
}

fn right_key() -> InputState {
    InputState { left: false, right: true }
}

fn left_key() -> InputState {
    InputState { left: true, right: false }
}

/// A world holding one player entity with the given horizontal velocity.
fn player_world(vx: i64) -> (World, usize) {
    let mut w = World::new();
    let h: ClipHandle = w.add_clip(player_run_clip(TextureHandle(0)));
    let anim = PlayerAnimation {
        state: PlayerState::Running,
        clip: h,
        current_frame: 2,
        timer_ms: 50,
        breath_cycle: 40,
        breath_cycle_length: 2000,
    };
    let id = w.add_entity(
        Some(Position(Vec2m { x: 0, y: 0 })),
        Some(Velocity(Vec2m { x: vx, y: 0 })),
        Some(anim),
        true,
        None,
    );
    (w, id)
}

#[test]
fn hold_right_ten_frames_reaches_clamp() {
    let mut w = initial_world(TextureHandle(0));
    for _ in 0..10 {
        w.update(right_key());
    }
    assert_eq!(w.velocities[0].unwrap().0.x, 5000);
    assert_eq!(w.animations[0].unwrap().state, PlayerState::Running);
}

#[test]
fn release_one_frame_from_full_speed() {
    let mut w = initial_world(TextureHandle(0));
    for _ in 0..10 {
        w.update(right_key());
    }
    w.update(no_keys());
    assert_eq!(w.velocities[0].unwrap().0.x, 4500);
    assert_eq!(w.animations[0].unwrap().state, PlayerState::Running);
}

#[test]
fn release_from_small_velocity_stops_and_idles() {
    let (mut w, id) = player_world(300);
    w.update(no_keys());
    assert_eq!(w.velocities[id].unwrap().0.x, 0);
    let a = w.animations[id].unwrap();
    assert_eq!(a.state, PlayerState::Idle);
    assert_eq!(a.current_frame, 0);
    assert_eq!(a.timer_ms, 0);
}

#[test]
fn hold_left_clamps_at_negative_limit() {
    let mut w = initial_world(TextureHandle(0));
    for _ in 0..15 {
        w.update(left_key());
    }
    assert_eq!(w.velocities[0].unwrap().0.x, -5000);
}

#[test]
fn left_wins_when_both_keys_held() {
    let mut w = initial_world(TextureHandle(0));
    w.update(InputState { left: true, right: true });
    assert_eq!(w.velocities[0].unwrap().0.x, -500);
}

#[test]
fn friction_never_overshoots_sign() {
    let (mut w, id) = player_world(-1200);
    let mut seen: Vec<i64> = Vec::new();
    for _ in 0..5 {
        w.update(no_keys());
        seen.push(w.velocities[id].unwrap().0.x);
    }
    assert_eq!(seen, vec![-700, -200, 0, 0, 0]);
}

#[test]
fn position_integrates_new_velocity() {
    let mut w = initial_world(TextureHandle(0));
    w.update(right_key());
    let p = w.positions[0].unwrap();
    assert_eq!(p.0.x, 100_500);
    assert_eq!(p.0.y, 600_000);
}

#[test]
fn breath_phase_accumulates_and_wraps() {
    let mut w = initial_world(TextureHandle(0));
    for _ in 0..99 {
        w.update(right_key());
    }
    assert_eq!(w.animations[0].unwrap().breath_cycle, 990);
    w.update(right_key());
    assert_eq!(w.animations[0].unwrap().breath_cycle, 0);
    for _ in 0..5 {
        w.update(right_key());
    }
    assert_eq!(w.animations[0].unwrap().breath_cycle, 50);
}

#[test]
fn idle_player_stays_put() {
    let mut w = initial_world(TextureHandle(0));
    w.update(no_keys());
    let p = w.positions[0].unwrap();
    assert_eq!(p.0.x, 100_000);
    assert_eq!(p.0.y, 600_000);
    assert_eq!(w.animations[0].unwrap().state, PlayerState::Idle);
}

#[test]
fn update_skips_entities_without_player_marker() {
    let mut w = World::new();
    let h = w.add_clip(player_run_clip(TextureHandle(0)));
    let anim = PlayerAnimation {
        state: PlayerState::Idle,
        clip: h,
        current_frame: 0,
        timer_ms: 0,
        breath_cycle: 0,
        breath_cycle_length: 2000,
    };
    let id = w.add_entity(
        Some(Position(Vec2m { x: 10, y: 20 })),
        Some(Velocity(Vec2m { x: 300, y: 0 })),
        Some(anim),
        false,
        None,
    );
    w.update(right_key());
    assert_eq!(w.positions[id].unwrap().0, Vec2m { x: 10, y: 20 });
    assert_eq!(w.velocities[id].unwrap().0.x, 300);
    assert_eq!(w.animations[id].unwrap().breath_cycle, 0);
}

#[test]
fn update_leaves_background_alone() {
    let mut w = initial_world(TextureHandle(4));
    w.update(right_key());
    assert_eq!(w.positions[1].unwrap().0, Vec2m { x: 0, y: 0 });
    assert_eq!(w.textures[1].unwrap().0, 4);
}
