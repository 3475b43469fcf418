//! The entity store: one storage per component kind, keyed by entity
//! index, plus the table of shared animation-clip resources, and the
//! construction of the game's starting world.

use vstd::prelude::*;

use crate::anim::{
    player_run_clip, PLAYER_FRAME_H, PLAYER_FRAME_MS, PLAYER_FRAME_W, PLAYER_ROW_A_Y,
    PLAYER_ROW_B_Y,
};
use crate::components::{
    anim_wf, clip_wf, position_wf, velocity_wf, ClipData, ClipHandle, PlayerAnimation,
    PlayerState, Position, TextureHandle, Velocity,
};
use crate::geom::{PixelRect, Vec2m};

verus! {

/// The player entity spawns 100 world units from the left edge.
pub const PLAYER_START_X: i64 = 100_000;

/// The player entity spawns 600 world units from the top edge.
pub const PLAYER_START_Y: i64 = 600_000;

/// The breath-cycle length recorded on the player: two world units.
pub const PLAYER_BREATH_LEN: i64 = 2000;

/// An absent position component is trivially well formed.
pub open spec fn opt_position_wf(o: Option<Position>) -> bool {
    o.is_some() ==> position_wf(o.unwrap())
}

pub open spec fn opt_velocity_wf(o: Option<Velocity>) -> bool {
    o.is_some() ==> velocity_wf(o.unwrap())
}

pub open spec fn opt_anim_wf(o: Option<PlayerAnimation>, clips: Seq<ClipData>) -> bool {
    o.is_some() ==> anim_wf(o.unwrap(), clips)
}

/// The entity store. An entity is an index; a component is attached when
/// its storage holds a value at that index. Clips are shared, immutable
/// resources referenced by handle from animation components.
pub struct World {
    pub positions: Vec<Option<Position>>,
    pub velocities: Vec<Option<Velocity>>,
    pub animations: Vec<Option<PlayerAnimation>>,
    pub players: Vec<bool>,
    pub textures: Vec<Option<TextureHandle>>,
    pub clips: Vec<ClipData>,
}

impl World {
    /// Number of entity slots.
    pub open spec fn entity_count(&self) -> int {
        self.positions@.len() as int
    }

    /// All storages cover the same entities, every attached component is
    /// well formed, and every clip resource is well formed.
    pub open spec fn wf(&self) -> bool {
        &&& self.velocities@.len() == self.positions@.len()
        &&& self.animations@.len() == self.positions@.len()
        &&& self.players@.len() == self.positions@.len()
        &&& self.textures@.len() == self.positions@.len()
        &&& forall|i: int|
            0 <= i < self.entity_count() ==> opt_position_wf(#[trigger] self.positions@[i])
        &&& forall|i: int|
            0 <= i < self.entity_count() ==> opt_velocity_wf(#[trigger] self.velocities@[i])
        &&& forall|i: int|
            0 <= i < self.entity_count() ==> opt_anim_wf(#[trigger] self.animations@[i], self.clips@)
        &&& forall|i: int| 0 <= i < self.clips@.len() ==> clip_wf(#[trigger] self.clips@[i])
    }

    /// Entity `i` matches the update system's query: it has position,
    /// velocity and animation components and carries the player marker.
    pub open spec fn player_entity(&self, i: int) -> bool {
        &&& self.positions@[i].is_some()
        &&& self.velocities@[i].is_some()
        &&& self.animations@[i].is_some()
        &&& self.players@[i]
    }

    /// Entity `i` matches the texture draw pass: position and texture.
    pub open spec fn sprite_entity(&self, i: int) -> bool {
        &&& self.positions@[i].is_some()
        &&& self.textures@[i].is_some()
    }

    /// Entity `i` matches the animation draw pass: position, velocity
    /// and animation components.
    pub open spec fn anim_entity(&self, i: int) -> bool {
        &&& self.positions@[i].is_some()
        &&& self.velocities@[i].is_some()
        &&& self.animations@[i].is_some()
    }

    /// An empty store.
    pub fn new() -> (w: World)
        ensures
            w.wf(),
            w.entity_count() == 0,
            w.clips@.len() == 0,
    {
        World {
            positions: Vec::new(),
            velocities: Vec::new(),
            animations: Vec::new(),
            players: Vec::new(),
            textures: Vec::new(),
            clips: Vec::new(),
        }
    }

    /// Register an animation clip resource, returning its handle.
    pub fn add_clip(&mut self, c: ClipData) -> (h: ClipHandle)
        requires
            old(self).wf(),
            clip_wf(c),
        ensures
            final(self).wf(),
            h.0 == old(self).clips@.len(),
            final(self).clips@ == old(self).clips@.push(c),
            final(self).positions == old(self).positions,
            final(self).velocities == old(self).velocities,
            final(self).animations == old(self).animations,
            final(self).players == old(self).players,
            final(self).textures == old(self).textures,
    {
        let h = ClipHandle(self.clips.len());
        self.clips.push(c);
        proof {
            assert forall|i: int|
                0 <= i < self.entity_count() implies opt_anim_wf(
                #[trigger] self.animations@[i],
                self.clips@,
            ) by {
                assert(opt_anim_wf(self.animations@[i], old(self).clips@));
            }
        }
        h
    }

    /// Create an entity with an initial bundle of components. Each
    /// storage grows by one slot; the new entity is the highest index.
    pub fn add_entity(
        &mut self,
        pos: Option<Position>,
        vel: Option<Velocity>,
        anim: Option<PlayerAnimation>,
        player: bool,
        tex: Option<TextureHandle>,
    ) -> (id: usize)
        requires
            old(self).wf(),
            opt_position_wf(pos),
            opt_velocity_wf(vel),
            opt_anim_wf(anim, old(self).clips@),
        ensures
            final(self).wf(),
            id == old(self).entity_count(),
            final(self).positions@ == old(self).positions@.push(pos),
            final(self).velocities@ == old(self).velocities@.push(vel),
            final(self).animations@ == old(self).animations@.push(anim),
            final(self).players@ == old(self).players@.push(player),
            final(self).textures@ == old(self).textures@.push(tex),
            final(self).clips == old(self).clips,
    {
        let id = self.positions.len();
        self.positions.push(pos);
        self.velocities.push(vel);
        self.animations.push(anim);
        self.players.push(player);
        self.textures.push(tex);
        id
    }
}

/// The starting world: a player entity at its spawn point with zero
/// velocity, idle, playing the running clip from its first frame with a
/// zero breath phase; and a background entity at the origin showing the
/// shared spritesheet texture.
pub fn initial_world(tex: TextureHandle) -> (w: World)
    ensures
        w.wf(),
        w.entity_count() == 2,
        w.clips@.len() == 1,
        w.clips@[0].texture == tex,
        w.clips@[0].frame_duration_ms == PLAYER_FRAME_MS,
        w.clips@[0].frames@.len() == 5,
        forall|i: int| 0 <= i < 3 ==> #[trigger] w.clips@[0].frames@[i] == (PixelRect {
            x: (i * PLAYER_FRAME_W as int) as i64,
            y: PLAYER_ROW_A_Y,
            w: PLAYER_FRAME_W,
            h: PLAYER_FRAME_H,
        }),
        forall|i: int| 3 <= i < 5 ==> #[trigger] w.clips@[0].frames@[i] == (PixelRect {
            x: ((i - 3) * PLAYER_FRAME_W as int) as i64,
            y: PLAYER_ROW_B_Y,
            w: PLAYER_FRAME_W,
            h: PLAYER_FRAME_H,
        }),
        w.positions@[0] == Some(Position(Vec2m { x: PLAYER_START_X, y: PLAYER_START_Y })),
        w.velocities@[0] == Some(Velocity(Vec2m { x: 0, y: 0 })),
        w.animations@[0] == Some(PlayerAnimation {
            state: PlayerState::Idle,
            clip: ClipHandle(0),
            current_frame: 0,
            timer_ms: 0,
            breath_cycle: 0,
            breath_cycle_length: PLAYER_BREATH_LEN,
        }),
        w.players@[0],
        w.textures@[0].is_none(),
        w.positions@[1] == Some(Position(Vec2m { x: 0, y: 0 })),
        w.velocities@[1].is_none(),
        w.animations@[1].is_none(),
        !w.players@[1],
        w.textures@[1] == Some(tex),
        w.player_entity(0),
        w.anim_entity(0),
        w.sprite_entity(1),
{
    let mut w = World::new();
    let clip: ClipData = player_run_clip(tex);
    let h: ClipHandle = w.add_clip(clip);
    let player_anim = PlayerAnimation {
        state: PlayerState::Idle,
        clip: h,
        current_frame: 0,
        timer_ms: 0,
        breath_cycle: 0,
        breath_cycle_length: PLAYER_BREATH_LEN,
    };
    let _player: usize = w.add_entity(
        Some(Position(Vec2m { x: PLAYER_START_X, y: PLAYER_START_Y })),
        Some(Velocity(Vec2m { x: 0, y: 0 })),
        Some(player_anim),
        true,
        None,
    );
    let _background: usize = w.add_entity(
        Some(Position(Vec2m { x: 0, y: 0 })),
        None,
        None,
        false,
        Some(tex),
    );
    w
}

} // verus!
