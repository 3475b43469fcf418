//! Animation clips: playback advance during the draw pass, restarting,
//! and the builders that lay out a clip's frames on a spritesheet.

use vstd::prelude::*;

use crate::components::{clip_wf, ClipData, PlayerAnimation, TextureHandle};
use crate::geom::{PixelRect, PIXEL_LIMIT};
use vstd::arithmetic::div_mod::{
    lemma_add_mod_noop, lemma_mod_bound, lemma_mod_sub_multiples_vanish, lemma_small_mod,
};
use vstd::arithmetic::mul::{lemma_mul_inequality, lemma_mul_is_distributive_add_other_way};

verus! {

/// How long each frame of the player's running clip is shown, in
/// milliseconds.
pub const PLAYER_FRAME_MS: u64 = 100;

/// Width in pixels of one frame of the player's running clip.
pub const PLAYER_FRAME_W: i64 = 32;

/// Height in pixels of one frame of the player's running clip.
pub const PLAYER_FRAME_H: i64 = 19;

/// Vertical offset of the first spritesheet row of the running clip.
pub const PLAYER_ROW_A_Y: i64 = 13;

/// Vertical offset of the second spritesheet row of the running clip.
pub const PLAYER_ROW_B_Y: i64 = 44;

/// Number of running-clip frames taken from the first row.
pub const PLAYER_ROW_A_FRAMES: usize = 3;

/// Number of running-clip frames taken from the second row.
pub const PLAYER_ROW_B_FRAMES: usize = 2;

/// Playback timer after advancing by `elapsed` milliseconds through
/// frames that each last `duration` milliseconds.
pub open spec fn advance_timer(timer: int, elapsed: int, duration: int) -> int
    recommends
        duration > 0,
{
    (timer + elapsed) % duration
}

/// Frame index after advancing by `elapsed` milliseconds: the playback
/// moves one frame forward for each full `duration` accumulated, wrapping
/// around the clip's `count` frames.
pub open spec fn advance_frame(current: int, timer: int, elapsed: int, duration: int, count: int) -> int
    recommends
        duration > 0,
        count > 0,
{
    (current + (timer + elapsed) / duration) % count
}

/// The animation component after the draw pass advances its playback by
/// `elapsed` milliseconds against its clip. Only the playback point
/// moves; state and breath cycle belong to the update pass.
pub open spec fn anim_advanced(a: PlayerAnimation, c: ClipData, elapsed: int) -> PlayerAnimation {
    PlayerAnimation {
        state: a.state,
        clip: a.clip,
        current_frame: advance_frame(
            a.current_frame as int,
            a.timer_ms as int,
            elapsed,
            c.frame_duration_ms as int,
            c.frames@.len() as int,
        ) as usize,
        timer_ms: advance_timer(a.timer_ms as int, elapsed, c.frame_duration_ms as int) as u64,
        breath_cycle: a.breath_cycle,
        breath_cycle_length: a.breath_cycle_length,
    }
}

impl PlayerAnimation {
    /// Advance playback by `elapsed_ms` against the clip this component
    /// plays: accumulate the timer and step the frame index once per full
    /// frame duration, wrapping around the clip.
    pub fn advance(&mut self, clip: &ClipData, elapsed_ms: u64)
        requires
            clip_wf(*clip),
            old(self).current_frame < clip.frames@.len(),
            old(self).timer_ms < clip.frame_duration_ms,
            elapsed_ms <= u64::MAX - clip.frame_duration_ms,
        ensures
            *final(self) == anim_advanced(*old(self), *clip, elapsed_ms as int),
            final(self).current_frame < clip.frames@.len(),
            final(self).timer_ms < clip.frame_duration_ms,
    {
        let total: u64 = self.timer_ms + elapsed_ms;
        let duration: u64 = clip.frame_duration_ms;
        let steps: u64 = total / duration;
        let count: u64 = clip.frames.len() as u64;
        let add: u64 = steps % count;
        let sum: u64 = (self.current_frame as u64) + add;
        let nf: u64 = if sum >= count { sum - count } else { sum };
        proof {
            let c = old(self).current_frame as int;
            let s = steps as int;
            let n = count as int;
            lemma_mod_bound(s, n);
            lemma_small_mod(c as nat, n as nat);
            lemma_add_mod_noop(c, s, n);
            if c + s % n >= n {
                lemma_mod_sub_multiples_vanish(c + s % n, n);
                lemma_small_mod((c + s % n - n) as nat, n as nat);
            } else {
                lemma_small_mod((c + s % n) as nat, n as nat);
            }
            lemma_mod_bound((total % duration) as int, duration as int);
        }
        self.timer_ms = total % duration;
        self.current_frame = nf as usize;
    }

    /// Rewind playback to the first frame of the clip.
    pub fn restart(&mut self)
        ensures
            *final(self) == (PlayerAnimation {
                current_frame: 0,
                timer_ms: 0,
                ..*old(self)
            }),
    {
        self.current_frame = 0;
        self.timer_ms = 0;
    }
}

/// The source rectangles of `n` equally sized frames laid out left to
/// right in one spritesheet row starting at (`x`, `y`).
pub fn rect_row(x: i64, y: i64, w: i64, h: i64, n: usize) -> (r: Vec<PixelRect>)
    requires
        0 <= y <= PIXEL_LIMIT,
        0 <= w <= PIXEL_LIMIT,
        0 <= h <= PIXEL_LIMIT,
        0 <= x,
        x as int + n as int * w as int <= PIXEL_LIMIT as int,
    ensures
        r@.len() == n,
        forall|i: int| 0 <= i < n ==> #[trigger] r@[i] == (PixelRect {
            x: (x as int + i * w as int) as i64,
            y: y,
            w: w,
            h: h,
        }),
{
    let mut r: Vec<PixelRect> = Vec::new();
    let mut i: usize = 0;
    let mut cx: i64 = x;
    while i < n
        invariant
            i <= n,
            r@.len() == i,
            cx as int == x as int + i as int * w as int,
            0 <= y <= PIXEL_LIMIT,
            0 <= w <= PIXEL_LIMIT,
            0 <= h <= PIXEL_LIMIT,
            0 <= x,
            x as int + n as int * w as int <= PIXEL_LIMIT as int,
            forall|j: int| 0 <= j < i ==> #[trigger] r@[j] == (PixelRect {
                x: (x as int + j * w as int) as i64,
                y: y,
                w: w,
                h: h,
            }),
        decreases n - i,
    {
        proof {
            lemma_mul_inequality(i as int + 1, n as int, w as int);
            lemma_mul_is_distributive_add_other_way(w as int, i as int, 1);
        }
        r.push(PixelRect { x: cx, y, w, h });
        cx = cx + w;
        i = i + 1;
    }
    r
}

/// The player's running clip as laid out on the shared spritesheet:
/// three frames from one row and two from a second row, each 32 by 19
/// pixels, shown for 100 milliseconds each.
pub fn player_run_clip(tex: TextureHandle) -> (c: ClipData)
    ensures
        clip_wf(c),
        c.texture == tex,
        c.frame_duration_ms == PLAYER_FRAME_MS,
        c.frames@.len() == 5,
        forall|i: int| 0 <= i < 3 ==> #[trigger] c.frames@[i] == (PixelRect {
            x: (i * PLAYER_FRAME_W as int) as i64,
            y: PLAYER_ROW_A_Y,
            w: PLAYER_FRAME_W,
            h: PLAYER_FRAME_H,
        }),
        forall|i: int| 3 <= i < 5 ==> #[trigger] c.frames@[i] == (PixelRect {
            x: ((i - 3) * PLAYER_FRAME_W as int) as i64,
            y: PLAYER_ROW_B_Y,
            w: PLAYER_FRAME_W,
            h: PLAYER_FRAME_H,
        }),
{
    let mut frames: Vec<PixelRect> = rect_row(
        0,
        PLAYER_ROW_A_Y,
        PLAYER_FRAME_W,
        PLAYER_FRAME_H,
        PLAYER_ROW_A_FRAMES,
    );
    let mut tail: Vec<PixelRect> = rect_row(
        0,
        PLAYER_ROW_B_Y,
        PLAYER_FRAME_W,
        PLAYER_FRAME_H,
        PLAYER_ROW_B_FRAMES,
    );
    frames.append(&mut tail);
    ClipData {
        texture: tex,
        frames,
        frame_duration_ms: PLAYER_FRAME_MS,
    }
}

} // verus!
