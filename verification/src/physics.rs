//! The per-frame movement rules: input-driven acceleration with clamping,
//! friction, breath-cycle advance, and the idle/running state machine,
//! together with the laws they obey.

use vstd::prelude::*;

use crate::components::{
    InputState, PlayerAnimation, PlayerState, Position, Velocity, ACCEL, BREATH_PERIOD,
    BREATH_STEP, FRICTION_MAX, VEL_LIMIT,
};
use crate::geom::{abs_val, clamp_coord_spec, max_val, min_val, sign_unit, Vec2m};

verus! {

/// New horizontal velocity when a left key is held: accelerate left,
/// clamped at `-VEL_LIMIT`.
pub open spec fn accelerate_left(vx: int) -> int {
    max_val(vx - ACCEL, -(VEL_LIMIT as int))
}

/// New horizontal velocity when a right key is held (and no left key):
/// accelerate right, clamped at `VEL_LIMIT`.
pub open spec fn accelerate_right(vx: int) -> int {
    min_val(vx + ACCEL, VEL_LIMIT as int)
}

/// New horizontal velocity with no key held: friction removes up to
/// `FRICTION_MAX` of the velocity's magnitude, toward zero.
pub open spec fn friction_step(vx: int) -> int {
    vx - min_val(abs_val(vx), FRICTION_MAX as int) * sign_unit(vx)
}

/// The velocity rule for one frame. A held left key wins over a held
/// right key; with neither, friction applies.
pub open spec fn velocity_step_x(vx: int, input: InputState) -> int {
    if input.left {
        accelerate_left(vx)
    } else if input.right {
        accelerate_right(vx)
    } else {
        friction_step(vx)
    }
}

/// The breath-cycle phase advances by `BREATH_STEP`, wrapping modulo
/// `BREATH_PERIOD`.
pub open spec fn breath_step(b: int) -> int {
    (b + BREATH_STEP) % (BREATH_PERIOD as int)
}

/// The velocity component after one update frame: the horizontal rule
/// applies; the vertical component is untouched (nothing in the game
/// moves vertically).
pub open spec fn step_velocity(v: Velocity, input: InputState) -> Velocity {
    Velocity(Vec2m {
        x: velocity_step_x(v.0.x as int, input) as i64,
        y: v.0.y,
    })
}

/// The position component after one update frame: the new velocity is
/// added in, saturating at the representable coordinate range.
pub open spec fn step_position(p: Position, v: Velocity) -> Position {
    Position(Vec2m {
        x: clamp_coord_spec(p.0.x as int + v.0.x as int) as i64,
        y: clamp_coord_spec(p.0.y as int + v.0.y as int) as i64,
    })
}

/// The animation component after one update frame, given the new
/// horizontal velocity: the breath phase advances; a moving player runs,
/// a stopped player goes idle and its clip restarts at frame zero.
pub open spec fn anim_step(a: PlayerAnimation, new_vx: int) -> PlayerAnimation {
    if new_vx != 0 {
        PlayerAnimation {
            state: PlayerState::Running,
            clip: a.clip,
            current_frame: a.current_frame,
            timer_ms: a.timer_ms,
            breath_cycle: breath_step(a.breath_cycle as int) as i64,
            breath_cycle_length: a.breath_cycle_length,
        }
    } else {
        PlayerAnimation {
            state: PlayerState::Idle,
            clip: a.clip,
            current_frame: 0,
            timer_ms: 0,
            breath_cycle: breath_step(a.breath_cycle as int) as i64,
            breath_cycle_length: a.breath_cycle_length,
        }
    }
}

/// Compute the velocity rule for one frame.
pub fn velocity_step_x_exec(vx: i64, input: InputState) -> (r: i64)
    requires
        -VEL_LIMIT <= vx <= VEL_LIMIT,
    ensures
        r as int == velocity_step_x(vx as int, input),
        -VEL_LIMIT <= r <= VEL_LIMIT,
{
    if input.left {
        let nv: i64 = vx - ACCEL;
        if nv < -VEL_LIMIT {
            -VEL_LIMIT
        } else {
            nv
        }
    } else if input.right {
        let nv: i64 = vx + ACCEL;
        if nv > VEL_LIMIT {
            VEL_LIMIT
        } else {
            nv
        }
    } else {
        let a: i64 = if vx < 0 { -vx } else { vx };
        let m: i64 = if a <= FRICTION_MAX { a } else { FRICTION_MAX };
        if vx < 0 {
            vx + m
        } else {
            vx - m
        }
    }
}

/// Advance the breath-cycle phase by one frame.
pub fn breath_step_exec(b: i64) -> (r: i64)
    requires
        0 <= b < BREATH_PERIOD,
    ensures
        r as int == breath_step(b as int),
        0 <= r < BREATH_PERIOD,
{
    let nb: i64 = b + BREATH_STEP;
    if nb >= BREATH_PERIOD {
        nb - BREATH_PERIOD
    } else {
        nb
    }
}

/// Compute the animation component after one update frame.
pub fn anim_step_exec(a: PlayerAnimation, new_vx: i64) -> (r: PlayerAnimation)
    requires
        0 <= a.breath_cycle < BREATH_PERIOD,
    ensures
        r == anim_step(a, new_vx as int),
{
    let nb: i64 = breath_step_exec(a.breath_cycle);
    if new_vx != 0 {
        PlayerAnimation {
            state: PlayerState::Running,
            breath_cycle: nb,
            ..a
        }
    } else {
        PlayerAnimation {
            state: PlayerState::Idle,
            current_frame: 0,
            timer_ms: 0,
            breath_cycle: nb,
            ..a
        }
    }
}

/// Law: the velocity clamp. One frame's velocity rule never leaves the
/// interval `[-VEL_LIMIT, VEL_LIMIT]`, whatever keys are held.
pub proof fn lemma_velocity_clamp(vx: int, input: InputState)
    requires
        -(VEL_LIMIT as int) <= vx <= VEL_LIMIT as int,
    ensures
        -(VEL_LIMIT as int) <= velocity_step_x(vx, input) <= VEL_LIMIT as int,
{
}

/// Law: friction alone moves the velocity toward zero, never past it and
/// never flipping its sign; its magnitude drops by exactly `FRICTION_MAX`,
/// or to zero if it was already smaller.
pub proof fn lemma_friction_no_overshoot(vx: int)
    ensures
        vx >= 0 ==> 0 <= friction_step(vx) <= vx,
        vx <= 0 ==> vx <= friction_step(vx) <= 0,
        abs_val(friction_step(vx)) == max_val(abs_val(vx) - FRICTION_MAX as int, 0),
{
}

/// Law: with no key held, the velocity rule is exactly the friction
/// rule, so the coasting laws below describe repeated updates.
pub proof fn lemma_no_input_is_friction(vx: int)
    ensures
        velocity_step_x(vx, InputState { left: false, right: false }) == friction_step(vx),
{
}

/// The velocity after `k` frames with no key held.
pub open spec fn coast(vx: int, k: nat) -> int
    decreases k,
{
    if k == 0 {
        vx
    } else {
        friction_step(coast(vx, (k - 1) as nat))
    }
}

/// Law: friction is monotone over any number of frames. Coasting keeps
/// the velocity between zero and its starting value (so it never
/// overshoots or changes sign), and each frame removes exactly
/// `FRICTION_MAX` of its magnitude until none is left.
pub proof fn lemma_coasting_monotone(vx: int, k: nat)
    ensures
        vx >= 0 ==> 0 <= coast(vx, k) <= vx,
        vx <= 0 ==> vx <= coast(vx, k) <= 0,
        abs_val(coast(vx, k)) == max_val(abs_val(vx) - k * (FRICTION_MAX as int), 0),
    decreases k,
{
    if k > 0 {
        lemma_coasting_monotone(vx, (k - 1) as nat);
    }
}

/// Law: coasting reaches a standstill once friction has had enough
/// frames to remove the whole starting magnitude.
pub proof fn lemma_coasting_stops(vx: int, k: nat)
    requires
        abs_val(vx) <= k * (FRICTION_MAX as int),
    ensures
        coast(vx, k) == 0,
{
    lemma_coasting_monotone(vx, k);
}

/// Law: the breath phase stays in `[0, BREATH_PERIOD)` and advances by
/// exactly `BREATH_STEP` per frame, up to the wraparound.
pub proof fn lemma_breath_wrap(b: int)
    requires
        0 <= b < BREATH_PERIOD as int,
    ensures
        0 <= breath_step(b) < BREATH_PERIOD as int,
        b + BREATH_STEP < BREATH_PERIOD ==> breath_step(b) == b + BREATH_STEP,
        b + BREATH_STEP >= BREATH_PERIOD ==> breath_step(b) == b + BREATH_STEP - BREATH_PERIOD,
{
}

/// Law: the state machine follows motion. A frame that ends at a
/// standstill puts the player in `Idle` and restarts the clip at frame
/// zero; a frame that ends in motion puts the player in `Running` and
/// leaves the playback point alone.
pub proof fn lemma_state_matches_motion(a: PlayerAnimation, new_vx: int)
    ensures
        new_vx == 0 ==> {
            &&& anim_step(a, new_vx).state == PlayerState::Idle
            &&& anim_step(a, new_vx).current_frame == 0
            &&& anim_step(a, new_vx).timer_ms == 0
        },
        new_vx != 0 ==> {
            &&& anim_step(a, new_vx).state == PlayerState::Running
            &&& anim_step(a, new_vx).current_frame == a.current_frame
            &&& anim_step(a, new_vx).timer_ms == a.timer_ms
        },
{
}

} // verus!
