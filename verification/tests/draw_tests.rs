//! The draw passes: command contents, playback advance, and read-only
//! behaviour toward positions and velocities.

use juicy_game::components::{
    ClipData, InputState, PlayerAnimation, PlayerState, Position, TextureHandle, Velocity,
};
use juicy_game::draw::DrawCommand;
use juicy_game::geom::{PixelRect, Vec2m};
use juicy_game::world::{initial_world, World};

#[test]
fn draw_issues_background_then_player() {
    let mut w = initial_world(TextureHandle(7));
    let cmds = w.draw(0);
    assert_eq!(cmds.len(), 2);
    match cmds[0] {
        DrawCommand::Sprite { tex, at, clip, scale } => {
            assert_eq!(tex.0, 7);
            assert_eq!(at, Vec2m { x: 0, y: 0 });
            assert_eq!(clip, PixelRect { x: 0, y: 176, w: 160, h: 128 });
            assert_eq!(scale, Vec2m { x: 8000, y: 5625 });
        }
        _ => panic!("first command should come from the texture pass"),
    }
    match cmds[1] {
        DrawCommand::AnimFrame { tex, at, frame, origin, flip, ease_arg } => {
            assert_eq!(tex.0, 7);
            assert_eq!(at, Vec2m { x: 100_000, y: 600_000 });
            assert_eq!(frame, PixelRect { x: 0, y: 13, w: 32, h: 19 });
            assert_eq!(origin, Vec2m { x: 16_000, y: 19_000 });
            assert_eq!(flip, 1);
            assert_eq!(ease_arg, 1000);
        }
        _ => panic!("second command should come from the animation pass"),
    }
}

#[test]
fn draw_leaves_positions_and_velocities_alone() {
    let mut w = initial_world(TextureHandle(0));
    w.update(InputState { left: false, right: true });
    let p = w.positions[0];
    let v = w.velocities[0];
    let state = w.animations[0].unwrap().state;
    let _ = w.draw(123);
    assert_eq!(w.positions[0], p);
    assert_eq!(w.velocities[0], v);
    assert_eq!(w.animations[0].unwrap().state, state);
    assert_eq!(w.players[0], true);
}

#[test]
fn draw_advances_playback_by_elapsed_time() {
    let mut w = initial_world(TextureHandle(0));
    let _ = w.draw(250);
    let a = w.animations[0].unwrap();
    assert_eq!(a.current_frame, 2);
    assert_eq!(a.timer_ms, 50);
    let _ = w.draw(480);
    let a = w.animations[0].unwrap();
    assert_eq!(a.current_frame, 2);
    assert_eq!(a.timer_ms, 30);
}

#[test]
fn playback_wraps_around_the_clip() {
    let mut w = initial_world(TextureHandle(0));
    let _ = w.draw(400);
    assert_eq!(w.animations[0].unwrap().current_frame, 4);
    let _ = w.draw(100);
    assert_eq!(w.animations[0].unwrap().current_frame, 0);
}

#[test]
fn facing_follows_velocity_sign() {
    let mut w = initial_world(TextureHandle(0));
    w.update(InputState { left: true, right: false });
    let cmds = w.draw(0);
    match cmds[1] {
        DrawCommand::AnimFrame { flip, .. } => assert_eq!(flip, -1),
        _ => panic!("second command should come from the animation pass"),
    }
}

#[test]
fn ease_argument_tracks_breath_phase() {
    let mut w = initial_world(TextureHandle(0));
    for _ in 0..25 {
        w.update(InputState { left: false, right: true });
    }
    let cmds = w.draw(0);
    match cmds[1] {
        DrawCommand::AnimFrame { ease_arg, .. } => {
            assert_eq!(ease_arg, 500);
        }
        _ => panic!("second command should come from the animation pass"),
    }
}

#[test]
fn origin_follows_current_frame_dimensions() {
    let mut w = World::new();
    let clip = ClipData {
        texture: TextureHandle(0),
        frames: vec![
            PixelRect { x: 0, y: 0, w: 32, h: 19 },
            PixelRect { x: 32, y: 0, w: 10, h: 8 },
        ],
        frame_duration_ms: 100,
    };
    let h = w.add_clip(clip);
    let anim = PlayerAnimation {
        state: PlayerState::Running,
        clip: h,
        current_frame: 0,
        timer_ms: 0,
        breath_cycle: 0,
        breath_cycle_length: 2000,
    };
    w.add_entity(
        Some(Position(Vec2m { x: 0, y: 0 })),
        Some(Velocity(Vec2m { x: 0, y: 0 })),
        Some(anim),
        true,
        None,
    );
    let cmds = w.draw(100);
    match cmds[0] {
        DrawCommand::AnimFrame { frame, origin, .. } => {
            assert_eq!(frame, PixelRect { x: 32, y: 0, w: 10, h: 8 });
            assert_eq!(origin, Vec2m { x: 5000, y: 8000 });
        }
        _ => panic!("the only command should come from the animation pass"),
    }
}

#[test]
fn drawn_frame_follows_playback() {
    let mut w = initial_world(TextureHandle(0));
    let cmds = w.draw(310);
    match cmds[1] {
        DrawCommand::AnimFrame { frame, .. } => {
            assert_eq!(frame, PixelRect { x: 0, y: 44, w: 32, h: 19 });
        }
        _ => panic!("second command should come from the animation pass"),
    }
}
