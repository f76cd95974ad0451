//! The animation controller and the whole per-entity simulation step.
//!
//! On every step the controller resolves the clip desired for the current
//! `(activity, facing)` pair and compares that resolved clip — not the
//! logical pair, since two pairs may share a clip — against the active one.
//! On a difference it swaps the whole runtime state in one assignment, with
//! the frame reset to the new clip's first frame; otherwise it leaves the
//! ticker to advance, preserving the animation phase.

use crate::clip::ClipTable;
use crate::movement::{
    movement_resolution, resolve_movement, DirectionVector, EntityState, FacingDirection,
};
use crate::ticker::{lemma_tick_additive, AnimationRuntimeState};
use vstd::prelude::*;

verus! {

/// Whether the runtime state is already showing exactly what the table
/// resolves for `(activity, facing)`: same clip, same sheet, same layout.
pub open spec fn matches_resolved(
    s: AnimationRuntimeState,
    table: ClipTable,
    activity: EntityState,
    facing: FacingDirection,
) -> bool {
    &&& s.active_clip == table.clip_spec(activity, facing)
    &&& s.active_sheet == table.sheet_spec(activity)
    &&& s.active_layout == table.layout_spec(activity)
}

/// The mathematical result of one controller step: a fresh state at the
/// resolved clip's first frame if the resolved clip differs from the active
/// one, the ticked state otherwise.
pub open spec fn animation_stepped(
    table: ClipTable,
    activity: EntityState,
    facing: FacingDirection,
    s: AnimationRuntimeState,
    dt_micros: u64,
) -> AnimationRuntimeState {
    if matches_resolved(s, table, activity, facing) {
        s.ticked(dt_micros)
    } else {
        AnimationRuntimeState {
            active_clip: table.clip_spec(activity, facing),
            active_sheet: table.sheet_spec(activity),
            active_layout: table.layout_spec(activity),
            current_frame: table.clip_spec(activity, facing).first_frame,
            elapsed_in_frame_micros: 0u64,
        }
    }
}

/// One animation controller step. After it, the active clip, sheet and
/// layout are exactly those the table assigns to `(activity, facing)`, and
/// the frame index lies within the active clip's bounds.
pub fn animation_step(
    state: &mut AnimationRuntimeState,
    table: &ClipTable,
    activity: EntityState,
    facing: FacingDirection,
    dt_micros: u64,
)
    requires
        table.wf(),
        old(state).wf(),
        old(state).elapsed_in_frame_micros + dt_micros <= u64::MAX,
    ensures
        *final(state) == animation_stepped(*table, activity, facing, *old(state), dt_micros),
        final(state).wf(),
        matches_resolved(*final(state), *table, activity, facing),
{
    let (clip, sheet, layout) = table.lookup(activity, facing);
    if state.active_clip == clip && state.active_sheet == sheet && state.active_layout
        == layout {
        state.tick(dt_micros);
    } else {
        *state = AnimationRuntimeState::new(clip, sheet, layout);
    }
}

/// One whole per-entity simulation step: movement and facing resolve first,
/// the animation controller consumes the just-updated pair second. Returns
/// the resolved raw direction so the caller can integrate the position —
/// the position changes only when the returned resolution is `Moving`.
pub fn player_step(
    up: bool,
    down: bool,
    left: bool,
    right: bool,
    dt_micros: u64,
    table: &ClipTable,
    facing: &mut FacingDirection,
    activity: &mut EntityState,
    anim: &mut AnimationRuntimeState,
) -> (direction: DirectionVector)
    requires
        table.wf(),
        old(anim).wf(),
        old(anim).elapsed_in_frame_micros + dt_micros <= u64::MAX,
    ensures
        ({
            let r = movement_resolution(up, down, left, right, *old(facing));
            &&& direction == r.direction
            &&& *final(facing) == r.facing
            &&& *final(activity) == r.activity
        }),
        *final(anim) == animation_stepped(
            *table,
            *final(activity),
            *final(facing),
            *old(anim),
            dt_micros,
        ),
        final(anim).wf(),
        matches_resolved(*final(anim), *table, *final(activity), *final(facing)),
{
    let r = resolve_movement(up, down, left, right, *facing);
    *facing = r.facing;
    *activity = r.activity;
    animation_step(anim, table, r.activity, r.facing, dt_micros);
    r.direction
}

/// A controller step whose pair resolves to what the state already shows
/// never swaps: it only ticks. Since every step leaves the state showing
/// the resolved clip, a change of pair swaps exactly once, on the very next
/// step, and later steps with that pair tick undisturbed.
pub proof fn lemma_unchanged_resolution_never_swaps(
    table: ClipTable,
    activity: EntityState,
    facing: FacingDirection,
    s: AnimationRuntimeState,
    dt_micros: u64,
)
    requires
        matches_resolved(s, table, activity, facing),
    ensures
        animation_stepped(table, activity, facing, s, dt_micros) == s.ticked(dt_micros),
{
}

/// Stepping the controller is additive while the pair is unchanged and no
/// swap is pending: stepping with `dt1` and then with `dt2` reaches exactly
/// the state of one step with the accumulated time `dt1 + dt2`. (A step
/// that swaps resets the phase instead of ticking, so the law asks that the
/// state already show the resolved clip.)
pub proof fn lemma_animation_step_additive(
    table: ClipTable,
    activity: EntityState,
    facing: FacingDirection,
    s: AnimationRuntimeState,
    dt1: u64,
    dt2: u64,
)
    requires
        table.wf(),
        s.wf(),
        matches_resolved(s, table, activity, facing),
        s.elapsed_in_frame_micros + dt1 + dt2 <= u64::MAX,
    ensures
        animation_stepped(
            table,
            activity,
            facing,
            animation_stepped(table, activity, facing, s, dt1),
            dt2,
        ) == animation_stepped(table, activity, facing, s, (dt1 + dt2) as u64),
{
    lemma_tick_additive(s, dt1, dt2);
}

} // verus!
