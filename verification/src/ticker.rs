//! The per-entity animation runtime state and its frame ticker.
//!
//! The ticker accumulates elapsed wall time and advances the current frame
//! once per full frame period, wrapping from the clip's last frame back to
//! its first. Advancing happens in a loop, not a single step, so a step that
//! spans several frame periods advances several frames and the animation
//! never falls behind wall-clock time.

use crate::clip::{AnimationClip, AtlasLayoutHandle, SheetHandle, MICROS_PER_SECOND};
use vstd::arithmetic::div_mod::{
    lemma_add_mod_noop, lemma_div_non_zero, lemma_div_nonincreasing, lemma_div_pos_is_pos,
    lemma_fundamental_div_mod, lemma_fundamental_div_mod_converse, lemma_hoist_over_denominator,
    lemma_mod_bound, lemma_mod_multiples_vanish, lemma_mod_self_0, lemma_small_mod,
};
use vstd::prelude::*;

verus! {

/// Duration of one frame of a clip played at the given rate, in microseconds.
pub open spec fn frame_period_spec(frames_per_second: u32) -> int {
    MICROS_PER_SECOND as int / frames_per_second as int
}

/// Number of frames in a clip's looping range.
pub open spec fn frame_count(clip: AnimationClip) -> int {
    clip.last_frame - clip.first_frame + 1
}

/// The frame shown after `steps` single-frame advances from `frame`, each
/// advance wrapping from the clip's last frame back to its first.
pub open spec fn frame_after(clip: AnimationClip, frame: u32, steps: int) -> int
    recommends
        clip.wf(),
        clip.first_frame <= frame <= clip.last_frame,
        0 <= steps,
{
    clip.first_frame + ((frame - clip.first_frame + steps) % frame_count(clip))
}

/// The frame period of a well-formed rate lies between one microsecond and
/// one second.
pub proof fn lemma_period_bounds(frames_per_second: u32)
    requires
        0 < frames_per_second <= MICROS_PER_SECOND,
    ensures
        1 <= frame_period_spec(frames_per_second) <= MICROS_PER_SECOND,
{
    lemma_div_non_zero(MICROS_PER_SECOND as int, frames_per_second as int);
    lemma_div_nonincreasing(MICROS_PER_SECOND as int, frames_per_second as int);
}

/// Duration of one frame of a clip played at the given rate, in microseconds.
pub fn frame_period_micros(frames_per_second: u32) -> (p: u64)
    requires
        0 < frames_per_second <= MICROS_PER_SECOND,
    ensures
        p == frame_period_spec(frames_per_second),
        1 <= p <= MICROS_PER_SECOND,
{
    proof {
        lemma_period_bounds(frames_per_second);
    }
    MICROS_PER_SECOND / (frames_per_second as u64)
}

/// One single-frame advance agrees with `frame_after` at the next step
/// count: the frame after the clip's last is the clip's first, every other
/// frame is followed by its successor, and the result stays within bounds.
proof fn lemma_advance_one_frame(clip: AnimationClip, start: u32, steps: int, prev: u32)
    requires
        clip.wf(),
        clip.first_frame <= start <= clip.last_frame,
        0 <= steps,
        prev == frame_after(clip, start, steps),
    ensures
        prev == clip.last_frame ==> frame_after(clip, start, steps + 1) == clip.first_frame,
        prev != clip.last_frame ==> frame_after(clip, start, steps + 1) == prev + 1,
        clip.first_frame <= frame_after(clip, start, steps + 1) <= clip.last_frame,
{
    let len = frame_count(clip);
    let a = start - clip.first_frame + steps;
    lemma_mod_bound(a, len);
    lemma_mod_bound(a + 1, len);
    let off = a % len;
    if len == 1 {
        assert(frame_after(clip, start, steps + 1) == clip.first_frame);
    } else {
        lemma_add_mod_noop(a, 1, len);
        lemma_small_mod(1nat, len as nat);
        if off == len - 1 {
            lemma_mod_self_0(len);
        } else {
            lemma_small_mod((off + 1) as nat, len as nat);
        }
    }
}

/// Composing step counts: advancing `k1` steps and then `k2` more reaches
/// the same frame as advancing `k1 + k2` steps at once.
proof fn lemma_frame_after_compose(clip: AnimationClip, frame: u32, k1: int, k2: int)
    requires
        clip.wf(),
        clip.first_frame <= frame <= clip.last_frame,
        0 <= k1,
        0 <= k2,
    ensures
        clip.first_frame <= frame_after(clip, frame, k1) <= clip.last_frame,
        frame_after(clip, frame_after(clip, frame, k1) as u32, k2) == frame_after(
            clip,
            frame,
            k1 + k2,
        ),
{
    let len = frame_count(clip);
    let a = frame - clip.first_frame + k1;
    lemma_mod_bound(a, len);
    lemma_mod_bound(a + k2, len);
    lemma_fundamental_div_mod(a, len);
    let q = a / len;
    assert(len * (-q) == -(len * q)) by (nonlinear_arith);
    lemma_mod_multiples_vanish(-q, a + k2, len);
}

/// The animation state owned by one entity: the active clip together with
/// its sheet and atlas layout, the frame being shown, and the wall time
/// accumulated toward the next frame advance. The controller replaces the
/// whole value in a single assignment on a clip swap, so a sheet is never
/// observed paired with a frame index of another clip.
#[derive(Clone, Copy, Debug, Eq, PartialEq, Structural)]
pub struct AnimationRuntimeState {
    pub active_clip: AnimationClip,
    pub active_sheet: SheetHandle,
    pub active_layout: AtlasLayoutHandle,
    pub current_frame: u32,
    pub elapsed_in_frame_micros: u64,
}

impl AnimationRuntimeState {
    /// The clip is well-formed and the frame being shown lies within its
    /// bounds.
    pub open spec fn wf(self) -> bool {
        &&& self.active_clip.wf()
        &&& self.active_clip.first_frame <= self.current_frame <= self.active_clip.last_frame
    }

    /// Fresh state at the start of a clip: its first frame, with no time
    /// accumulated.
    pub fn new(clip: AnimationClip, sheet: SheetHandle, layout: AtlasLayoutHandle) -> (s:
        AnimationRuntimeState)
        requires
            clip.wf(),
        ensures
            s == (AnimationRuntimeState {
                active_clip: clip,
                active_sheet: sheet,
                active_layout: layout,
                current_frame: clip.first_frame,
                elapsed_in_frame_micros: 0u64,
            }),
            s.wf(),
    {
        AnimationRuntimeState {
            active_clip: clip,
            active_sheet: sheet,
            active_layout: layout,
            current_frame: clip.first_frame,
            elapsed_in_frame_micros: 0,
        }
    }

    /// What the render layer consumes each step: the active sheet, its atlas
    /// layout, and the frame index to show.
    pub fn render_frame(&self) -> (r: (SheetHandle, AtlasLayoutHandle, u32))
        ensures
            r == (self.active_sheet, self.active_layout, self.current_frame),
    {
        (self.active_sheet, self.active_layout, self.current_frame)
    }

    /// The mathematical result of advancing the ticker by `dt_micros`: with
    /// `total` the accumulated time and `p` the frame period, the frame
    /// advances by `total / p` wrapping steps and `total % p` microseconds
    /// stay accumulated.
    pub open spec fn ticked(self, dt_micros: u64) -> AnimationRuntimeState
        recommends
            self.wf(),
            self.elapsed_in_frame_micros + dt_micros <= u64::MAX,
    {
        let p = frame_period_spec(self.active_clip.frames_per_second);
        let total = self.elapsed_in_frame_micros + dt_micros;
        AnimationRuntimeState {
            active_clip: self.active_clip,
            active_sheet: self.active_sheet,
            active_layout: self.active_layout,
            current_frame: frame_after(self.active_clip, self.current_frame, total / p) as u32,
            elapsed_in_frame_micros: (total % p) as u64,
        }
    }

    /// Advance the ticker by `dt_micros` of wall time: accumulate it, then
    /// advance one frame per full frame period, wrapping from the clip's
    /// last frame to its first, until less than one period remains.
    pub fn tick(&mut self, dt_micros: u64)
        requires
            old(self).wf(),
            old(self).elapsed_in_frame_micros + dt_micros <= u64::MAX,
        ensures
            *final(self) == old(self).ticked(dt_micros),
            final(self).wf(),
            final(self).elapsed_in_frame_micros < frame_period_spec(
                final(self).active_clip.frames_per_second,
            ),
    {
        let p: u64 = frame_period_micros(self.active_clip.frames_per_second);
        self.elapsed_in_frame_micros = self.elapsed_in_frame_micros + dt_micros;
        let ghost total: int = self.elapsed_in_frame_micros as int;
        let ghost start_frame: u32 = self.current_frame;
        let ghost steps: int = 0;
        proof {
            lemma_small_mod(
                (start_frame - self.active_clip.first_frame) as nat,
                frame_count(self.active_clip) as nat,
            );
        }
        while self.elapsed_in_frame_micros >= p
            invariant
                self.active_clip == old(self).active_clip,
                self.active_sheet == old(self).active_sheet,
                self.active_layout == old(self).active_layout,
                self.active_clip.wf(),
                1 <= p <= MICROS_PER_SECOND,
                p == frame_period_spec(self.active_clip.frames_per_second),
                0 <= steps,
                total == old(self).elapsed_in_frame_micros + dt_micros,
                total == p * steps + self.elapsed_in_frame_micros,
                start_frame == old(self).current_frame,
                self.active_clip.first_frame <= start_frame <= self.active_clip.last_frame,
                self.current_frame == frame_after(self.active_clip, start_frame, steps),
                self.active_clip.first_frame <= self.current_frame
                    <= self.active_clip.last_frame,
            decreases self.elapsed_in_frame_micros,
        {
            self.elapsed_in_frame_micros = self.elapsed_in_frame_micros - p;
            let ghost prev_frame: u32 = self.current_frame;
            if self.current_frame == self.active_clip.last_frame {
                self.current_frame = self.active_clip.first_frame;
            } else {
                self.current_frame = self.current_frame + 1;
            }
            proof {
                lemma_advance_one_frame(self.active_clip, start_frame, steps, prev_frame);
                assert(p * (steps + 1) == p * steps + p) by (nonlinear_arith);
                steps = steps + 1;
            }
        }
        proof {
            assert(steps * (p as int) == (p as int) * steps) by (nonlinear_arith);
            lemma_fundamental_div_mod_converse(
                total,
                p as int,
                steps,
                self.elapsed_in_frame_micros as int,
            );
        }
    }
}

/// Ticking is additive: advancing the ticker by `dt1` and then by `dt2`
/// reaches exactly the state of advancing once by `dt1 + dt2`.
pub proof fn lemma_tick_additive(s: AnimationRuntimeState, dt1: u64, dt2: u64)
    requires
        s.wf(),
        s.elapsed_in_frame_micros + dt1 + dt2 <= u64::MAX,
    ensures
        s.ticked(dt1).ticked(dt2) == s.ticked((dt1 + dt2) as u64),
{
    let clip = s.active_clip;
    let p = frame_period_spec(clip.frames_per_second);
    lemma_period_bounds(clip.frames_per_second);
    let e0 = s.elapsed_in_frame_micros as int;
    let t1 = e0 + dt1;
    let k1 = t1 / p;
    let r1 = t1 % p;
    lemma_fundamental_div_mod(t1, p);
    lemma_mod_bound(t1, p);
    lemma_div_pos_is_pos(t1, p);
    lemma_mod_bound(s.current_frame - clip.first_frame + k1, frame_count(clip));
    let t2 = r1 + dt2;
    let k2 = t2 / p;
    lemma_div_pos_is_pos(t2, p);
    lemma_mod_bound(t2, p);
    let total = e0 + dt1 + dt2;
    assert(total == p * k1 + t2);
    lemma_mod_multiples_vanish(k1, t2, p);
    lemma_hoist_over_denominator(t2, k1, p as nat);
    assert(k1 * p == p * k1) by (nonlinear_arith);
    lemma_frame_after_compose(clip, s.current_frame, k1, k2);
}

} // verus!
