//! The update system: once per frame, every entity matching
//! {Position, Velocity, PlayerAnimation, Player} advances its breath
//! phase, applies the velocity rule for the held keys, integrates its
//! position, and follows the idle/running state machine. Everything else
//! in the world is untouched.

use vstd::prelude::*;

use crate::components::{InputState, PlayerAnimation, Position, Velocity};
use crate::geom::{add_coord, Vec2m};
use crate::physics::{
    anim_step, anim_step_exec, lemma_breath_wrap, step_position, step_velocity,
    velocity_step_x_exec,
};
use crate::world::World;

verus! {

impl World {
    /// The position component of entity `i` after one update frame.
    pub open spec fn updated_position(self, i: int, input: InputState) -> Option<Position> {
        if self.player_entity(i) {
            Some(step_position(
                self.positions@[i].unwrap(),
                step_velocity(self.velocities@[i].unwrap(), input),
            ))
        } else {
            self.positions@[i]
        }
    }

    /// The velocity component of entity `i` after one update frame.
    pub open spec fn updated_velocity(self, i: int, input: InputState) -> Option<Velocity> {
        if self.player_entity(i) {
            Some(step_velocity(self.velocities@[i].unwrap(), input))
        } else {
            self.velocities@[i]
        }
    }

    /// The animation component of entity `i` after one update frame.
    pub open spec fn updated_animation(self, i: int, input: InputState) -> Option<
        PlayerAnimation,
    > {
        if self.player_entity(i) {
            Some(anim_step(
                self.animations@[i].unwrap(),
                step_velocity(self.velocities@[i].unwrap(), input).0.x as int,
            ))
        } else {
            self.animations@[i]
        }
    }

    /// Run the update system for one frame against the held keys.
    pub fn update(&mut self, input: InputState)
        requires
            old(self).wf(),
        ensures
            final(self).wf(),
            final(self).entity_count() == old(self).entity_count(),
            final(self).players == old(self).players,
            final(self).textures == old(self).textures,
            final(self).clips == old(self).clips,
            forall|i: int|
                0 <= i < old(self).entity_count() ==> #[trigger] final(self).positions@[i]
                    == old(self).updated_position(i, input),
            forall|i: int|
                0 <= i < old(self).entity_count() ==> #[trigger] final(self).velocities@[i]
                    == old(self).updated_velocity(i, input),
            forall|i: int|
                0 <= i < old(self).entity_count() ==> #[trigger] final(self).animations@[i]
                    == old(self).updated_animation(i, input),
    {
        let ghost w0 = *self;
        let n: usize = self.positions.len();
        let mut i: usize = 0;
        while i < n
            invariant
                w0.wf(),
                i <= n,
                n == w0.entity_count(),
                self.positions@.len() == n,
                self.velocities@.len() == n,
                self.animations@.len() == n,
                self.players == w0.players,
                self.textures == w0.textures,
                self.clips == w0.clips,
                forall|j: int|
                    0 <= j < i ==> self.positions@[j] == #[trigger] w0.updated_position(j, input),
                forall|j: int|
                    0 <= j < i ==> self.velocities@[j] == #[trigger] w0.updated_velocity(j, input),
                forall|j: int|
                    0 <= j < i ==> self.animations@[j] == #[trigger] w0.updated_animation(
                        j,
                        input,
                    ),
                forall|j: int| i <= j < n ==> self.positions@[j] == w0.positions@[j],
                forall|j: int| i <= j < n ==> self.velocities@[j] == w0.velocities@[j],
                forall|j: int| i <= j < n ==> self.animations@[j] == w0.animations@[j],
                self.wf(),
            decreases n - i,
        {
            if self.players[i] && self.positions[i].is_some() && self.velocities[i].is_some()
                && self.animations[i].is_some() {
                let p: Position = self.positions[i].unwrap();
                let v: Velocity = self.velocities[i].unwrap();
                let a: PlayerAnimation = self.animations[i].unwrap();
                let nvx: i64 = velocity_step_x_exec(v.0.x, input);
                let nv = Velocity(Vec2m { x: nvx, y: v.0.y });
                let np = Position(Vec2m {
                    x: add_coord(p.0.x, nv.0.x),
                    y: add_coord(p.0.y, nv.0.y),
                });
                let na: PlayerAnimation = anim_step_exec(a, nvx);
                proof {
                    lemma_breath_wrap(a.breath_cycle as int);
                }
                self.positions.set(i, Some(np));
                self.velocities.set(i, Some(nv));
                self.animations.set(i, Some(na));
            }
            i = i + 1;
        }
    }
}

} // verus!
