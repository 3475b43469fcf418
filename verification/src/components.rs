//! Component and resource types of the entity store, with their
//! well-formedness conditions, and the tuning constants of the game rules.

use vstd::prelude::*;

use crate::geom::{in_coord_range, rect_wf, PixelRect, Vec2m};

verus! {

/// Horizontal velocity is clamped to five world units per frame
/// (five times `MILLI`).
pub const VEL_LIMIT: i64 = 5000;

/// Velocity gained per frame while a direction key is held: half a unit.
pub const ACCEL: i64 = 500;

/// Largest velocity lost to friction in one frame with no key held:
/// half a unit.
pub const FRICTION_MAX: i64 = 500;

/// The breath-cycle phase advances by a hundredth of a unit per frame.
pub const BREATH_STEP: i64 = 10;

/// The breath-cycle phase lives in the half-open interval
/// `[0, BREATH_PERIOD)`: one full unit.
pub const BREATH_PERIOD: i64 = 1000;

/// Bound on the number of frames of an animation clip.
pub const MAX_FRAMES: usize = 10_000;

/// Bound on the duration of one animation frame, in milliseconds.
pub const MAX_FRAME_MS: u64 = 1_000_000;

/// Where an entity stands, in milli-units.
#[derive(Clone, Copy, PartialEq, Eq, Structural, Debug)]
pub struct Position(pub Vec2m);

/// How far an entity moves per frame, in milli-units.
#[derive(Clone, Copy, PartialEq, Eq, Structural, Debug)]
pub struct Velocity(pub Vec2m);

/// Identifies a texture owned by the rendering front end. The store only
/// passes the handle through to draw commands.
#[derive(Clone, Copy, PartialEq, Eq, Structural, Debug)]
pub struct TextureHandle(pub usize);

/// Index of an animation clip in the world's clip table.
#[derive(Clone, Copy, PartialEq, Eq, Structural, Debug)]
pub struct ClipHandle(pub usize);

/// The player's two-state machine: driven purely by horizontal velocity.
#[derive(Clone, Copy, PartialEq, Eq, Structural, Debug)]
pub enum PlayerState {
    Idle,
    Running,
}

/// An animation clip: an immutable, shared resource holding the source
/// rectangles of its frames and how long each frame is shown.
#[derive(Debug)]
pub struct ClipData {
    pub texture: TextureHandle,
    pub frames: Vec<PixelRect>,
    pub frame_duration_ms: u64,
}

/// The player's animation component: the state machine, which clip plays,
/// the playback point inside the clip, and the cosmetic breath cycle.
#[derive(Clone, Copy, PartialEq, Eq, Structural, Debug)]
pub struct PlayerAnimation {
    pub state: PlayerState,
    pub clip: ClipHandle,
    pub current_frame: usize,
    pub timer_ms: u64,
    pub breath_cycle: i64,
    pub breath_cycle_length: i64,
}

/// Level-triggered key state for one frame: whether a left key and
/// whether a right key is currently held down.
#[derive(Clone, Copy, PartialEq, Eq, Structural, Debug)]
pub struct InputState {
    pub left: bool,
    pub right: bool,
}

pub open spec fn position_wf(p: Position) -> bool {
    &&& in_coord_range(p.0.x as int)
    &&& in_coord_range(p.0.y as int)
}

/// The horizontal component obeys the game's clamp; the vertical
/// component, which nothing in the game accelerates, only needs to stay
/// representable for position integration.
pub open spec fn velocity_wf(v: Velocity) -> bool {
    &&& -VEL_LIMIT <= v.0.x <= VEL_LIMIT
    &&& in_coord_range(v.0.y as int)
}

pub open spec fn clip_wf(c: ClipData) -> bool {
    &&& 1 <= c.frames@.len() <= MAX_FRAMES
    &&& 1 <= c.frame_duration_ms <= MAX_FRAME_MS
    &&& forall|i: int| 0 <= i < c.frames@.len() ==> rect_wf(#[trigger] c.frames@[i])
}

/// An animation component is well formed with respect to a clip table:
/// its handle is valid, playback stands inside the clip, and the breath
/// phase is in range.
pub open spec fn anim_wf(a: PlayerAnimation, clips: Seq<ClipData>) -> bool {
    &&& a.clip.0 < clips.len()
    &&& a.current_frame < clips[a.clip.0 as int].frames@.len()
    &&& a.timer_ms < clips[a.clip.0 as int].frame_duration_ms
    &&& 0 <= a.breath_cycle < BREATH_PERIOD
    &&& 0 <= a.breath_cycle_length
}

} // verus!
