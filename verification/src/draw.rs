//! The draw systems: once per frame, a texture pass over entities with
//! {Position, Texture} and an animation pass over entities with
//! {Position, Velocity, PlayerAnimation}. Instead of calling a graphics
//! backend, they return explicit draw commands in issue order; the
//! animation pass also advances each matched clip's playback. Apart from
//! that playback, drawing is read-only.

use vstd::prelude::*;

use crate::anim::anim_advanced;
use crate::components::{
    clip_wf, ClipData, PlayerAnimation, Position, TextureHandle, Velocity, BREATH_PERIOD,
    MAX_FRAME_MS,
};
use crate::geom::{abs_val, sign_unit, PixelRect, Vec2m, HALF_MILLI, MILLI};
use crate::world::{opt_anim_wf, World};

verus! {

/// Width of the game window, in pixels.
pub const WINDOW_W: i64 = 1280;

/// Height of the game window, in pixels.
pub const WINDOW_H: i64 = 720;

/// Left edge of the background crop on the spritesheet, in pixels.
pub const BG_CLIP_X: i64 = 0;

/// Top edge of the background crop on the spritesheet, in pixels.
pub const BG_CLIP_Y: i64 = 176;

/// Width of the background crop, in pixels.
pub const BG_CLIP_W: i64 = 160;

/// Height of the background crop, in pixels.
pub const BG_CLIP_H: i64 = 128;

/// Horizontal stretch of the background so its crop fills the window:
/// `WINDOW_W / BG_CLIP_W` in milli-units.
pub const BG_SCALE_X: i64 = 8000;

/// Vertical stretch of the background so its crop fills the window:
/// `WINDOW_H / BG_CLIP_H` in milli-units.
pub const BG_SCALE_Y: i64 = 5625;

/// Base scale of the player sprite on both axes, in milli-units: three.
pub const PLAYER_SCALE: i64 = 3000;

/// Amplitude of the breath effect, in milli-units: the renderer scales
/// the player vertically by `1 + ease(ease_arg / MILLI) * BREATH_GAIN /
/// MILLI` on top of `PLAYER_SCALE`.
pub const BREATH_GAIN: i64 = 200;

/// The parameters of one draw call, in issue order.
#[derive(Clone, Copy, PartialEq, Eq, Structural, Debug)]
pub enum DrawCommand {
    /// From the texture pass: draw texture `tex` at `at`, cropped to
    /// `clip` and stretched by `scale` (milli-units per axis).
    Sprite { tex: TextureHandle, at: Vec2m, clip: PixelRect, scale: Vec2m },
    /// From the animation pass: draw the source rectangle `frame` of
    /// texture `tex` at `at`, pivoting on `origin` (milli-pixels within
    /// the frame), facing right when `flip` is one and left when it is
    /// minus one, with the breath ease argument `ease_arg` in
    /// `[0, BREATH_PERIOD]` for the renderer's eased oscillation.
    AnimFrame {
        tex: TextureHandle,
        at: Vec2m,
        frame: PixelRect,
        origin: Vec2m,
        flip: i64,
        ease_arg: i64,
    },
}

/// The fixed crop of the spritesheet the background shows.
pub open spec fn background_clip() -> PixelRect {
    PixelRect { x: BG_CLIP_X, y: BG_CLIP_Y, w: BG_CLIP_W, h: BG_CLIP_H }
}

/// The fixed stretch that fits the background crop to the window.
pub open spec fn background_scale() -> Vec2m {
    Vec2m { x: BG_SCALE_X, y: BG_SCALE_Y }
}

/// The command the texture pass issues for an entity at `p` showing `t`.
pub open spec fn sprite_command(p: Position, t: TextureHandle) -> DrawCommand {
    DrawCommand::Sprite { tex: t, at: p.0, clip: background_clip(), scale: background_scale() }
}

/// The argument of the eased breath oscillation: the distance of twice
/// the phase from one, `|2 b - BREATH_PERIOD|`, in milli-units.
pub open spec fn ease_argument(b: int) -> int {
    abs_val(2 * b - BREATH_PERIOD as int)
}

/// The command the animation pass issues for an entity at `p` moving
/// with `v` whose (already advanced) animation is `a`: the current frame
/// of its clip, a bottom-center pivot (half the current frame's width,
/// its full height), facing from the sign of the horizontal velocity,
/// and the breath ease argument from the phase.
pub open spec fn anim_command(
    p: Position,
    v: Velocity,
    a: PlayerAnimation,
    clips: Seq<ClipData>,
) -> DrawCommand {
    DrawCommand::AnimFrame {
        tex: clips[a.clip.0 as int].texture,
        at: p.0,
        frame: clips[a.clip.0 as int].frames@[a.current_frame as int],
        origin: Vec2m {
            x: (clips[a.clip.0 as int].frames@[a.current_frame as int].w as int
                * HALF_MILLI as int) as i64,
            y: (clips[a.clip.0 as int].frames@[a.current_frame as int].h as int
                * MILLI as int) as i64,
        },
        flip: sign_unit(v.0.x as int) as i64,
        ease_arg: ease_argument(a.breath_cycle as int) as i64,
    }
}

/// The commands the texture pass issues for entities below `k`.
pub open spec fn sprite_commands_upto(w: World, k: int) -> Seq<DrawCommand>
    decreases k,
{
    if k <= 0 {
        Seq::empty()
    } else if w.sprite_entity(k - 1) {
        sprite_commands_upto(w, k - 1).push(
            sprite_command(w.positions@[k - 1].unwrap(), w.textures@[k - 1].unwrap()),
        )
    } else {
        sprite_commands_upto(w, k - 1)
    }
}

/// All commands of the texture pass, in entity order.
pub open spec fn sprite_commands(w: World) -> Seq<DrawCommand> {
    sprite_commands_upto(w, w.entity_count())
}

/// The commands the animation pass issues for entities below `k`, after
/// each matched animation advances its playback by `elapsed`.
pub open spec fn anim_commands_upto(w: World, elapsed: int, k: int) -> Seq<DrawCommand>
    decreases k,
{
    if k <= 0 {
        Seq::empty()
    } else if w.anim_entity(k - 1) {
        anim_commands_upto(w, elapsed, k - 1).push(
            anim_command(
                w.positions@[k - 1].unwrap(),
                w.velocities@[k - 1].unwrap(),
                anim_advanced(
                    w.animations@[k - 1].unwrap(),
                    w.clips@[w.animations@[k - 1].unwrap().clip.0 as int],
                    elapsed,
                ),
                w.clips@,
            ),
        )
    } else {
        anim_commands_upto(w, elapsed, k - 1)
    }
}

/// All commands of the animation pass, in entity order.
pub open spec fn anim_commands(w: World, elapsed: int) -> Seq<DrawCommand> {
    anim_commands_upto(w, elapsed, w.entity_count())
}

/// Compute the breath ease argument from a phase.
pub fn ease_argument_exec(b: i64) -> (r: i64)
    requires
        0 <= b < BREATH_PERIOD,
    ensures
        r as int == ease_argument(b as int),
        0 <= r <= BREATH_PERIOD,
{
    let d: i64 = 2 * b - BREATH_PERIOD;
    if d < 0 {
        -d
    } else {
        d
    }
}

impl World {
    /// The animation component of entity `i` after the animation pass
    /// advances playback by `elapsed` milliseconds.
    pub open spec fn advanced_animation(self, i: int, elapsed: int) -> Option<PlayerAnimation> {
        if self.anim_entity(i) {
            Some(anim_advanced(
                self.animations@[i].unwrap(),
                self.clips@[self.animations@[i].unwrap().clip.0 as int],
                elapsed,
            ))
        } else {
            self.animations@[i]
        }
    }

    /// Run the two draw passes for one frame, `elapsed_ms` after the
    /// previous draw, and return the draw commands in issue order: the
    /// whole texture pass, then the whole animation pass. Drawing is
    /// read-only apart from clip playback: positions, velocities,
    /// markers, textures and clip resources come back unchanged, and the
    /// animation components change only by their playback advance.
    pub fn draw(&mut self, elapsed_ms: u64) -> (cmds: Vec<DrawCommand>)
        requires
            old(self).wf(),
            elapsed_ms <= u64::MAX - MAX_FRAME_MS,
        ensures
            final(self).wf(),
            final(self).positions == old(self).positions,
            final(self).velocities == old(self).velocities,
            final(self).players == old(self).players,
            final(self).textures == old(self).textures,
            final(self).clips == old(self).clips,
            final(self).animations@.len() == old(self).animations@.len(),
            forall|i: int|
                0 <= i < old(self).entity_count() ==> #[trigger] final(self).animations@[i]
                    == old(self).advanced_animation(i, elapsed_ms as int),
            cmds@ == sprite_commands(*old(self)) + anim_commands(*old(self), elapsed_ms as int),
    {
        let ghost w0 = *self;
        let mut cmds: Vec<DrawCommand> = Vec::new();
        let n: usize = self.positions.len();
        let mut i: usize = 0;
        while i < n
            invariant
                w0.wf(),
                i <= n,
                n == w0.entity_count(),
                *self == w0,
                cmds@ == sprite_commands_upto(w0, i as int),
            decreases n - i,
        {
            if self.positions[i].is_some() && self.textures[i].is_some() {
                let p: Position = self.positions[i].unwrap();
                let t: TextureHandle = self.textures[i].unwrap();
                cmds.push(DrawCommand::Sprite {
                    tex: t,
                    at: p.0,
                    clip: PixelRect { x: BG_CLIP_X, y: BG_CLIP_Y, w: BG_CLIP_W, h: BG_CLIP_H },
                    scale: Vec2m { x: BG_SCALE_X, y: BG_SCALE_Y },
                });
            }
            i = i + 1;
        }
        proof {
            assert(cmds@ =~= sprite_commands(w0) + anim_commands_upto(w0, elapsed_ms as int, 0));
        }
        let mut i: usize = 0;
        while i < n
            invariant
                w0.wf(),
                i <= n,
                n == w0.entity_count(),
                elapsed_ms <= u64::MAX - MAX_FRAME_MS,
                self.positions == w0.positions,
                self.velocities == w0.velocities,
                self.players == w0.players,
                self.textures == w0.textures,
                self.clips == w0.clips,
                self.animations@.len() == n,
                forall|j: int|
                    0 <= j < i ==> self.animations@[j] == #[trigger] w0.advanced_animation(
                        j,
                        elapsed_ms as int,
                    ),
                forall|j: int| i <= j < n ==> self.animations@[j] == w0.animations@[j],
                forall|j: int|
                    0 <= j < n ==> opt_anim_wf(#[trigger] self.animations@[j], self.clips@),
                cmds@ == sprite_commands(w0) + anim_commands_upto(w0, elapsed_ms as int, i as int),
            decreases n - i,
        {
            if self.positions[i].is_some() && self.velocities[i].is_some()
                && self.animations[i].is_some() {
                let p: Position = self.positions[i].unwrap();
                let v: Velocity = self.velocities[i].unwrap();
                let mut a: PlayerAnimation = self.animations[i].unwrap();
                let h: usize = a.clip.0;
                a.advance(&self.clips[h], elapsed_ms);
                self.animations.set(i, Some(a));
                let fr: PixelRect = self.clips[h].frames[a.current_frame];
                let tex: TextureHandle = self.clips[h].texture;
                let flip: i64 = if v.0.x < 0 { -1 } else { 1 };
                let ea: i64 = ease_argument_exec(a.breath_cycle);
                cmds.push(DrawCommand::AnimFrame {
                    tex,
                    at: p.0,
                    frame: fr,
                    origin: Vec2m { x: fr.w * HALF_MILLI, y: fr.h * MILLI },
                    flip,
                    ease_arg: ea,
                });
                proof {
                    assert(cmds@ =~= sprite_commands(w0) + anim_commands_upto(
                        w0,
                        elapsed_ms as int,
                        i as int + 1,
                    ));
                }
            }
            i = i + 1;
        }
        cmds
    }
}

} // verus!
