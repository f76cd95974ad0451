//! Animation clips and the clip table.
//!
//! A clip is a contiguous, looping run of frame indices within one sprite
//! sheet, played at a fixed rate. The clip table is the total mapping from
//! every `(activity, facing)` pair to its clip and to the sprite sheet the
//! clip's frames live in; it is validated once at construction and read-only
//! afterwards, so the per-tick path never meets an unresolvable pair.

use crate::movement::{EntityState, FacingDirection};
use vstd::prelude::*;

verus! {

/// Microseconds in one second: the resolution of every duration in this
/// library, and the largest representable playback rate.
pub const MICROS_PER_SECOND: u64 = 1_000_000;

/// Identifier of a sprite sheet held by the caller's asset provider.
#[derive(Clone, Copy, Debug, Eq, PartialEq, Structural)]
pub struct SheetHandle {
    pub id: u64,
}

/// Identifier of a texture-atlas layout held by the caller's asset provider.
#[derive(Clone, Copy, Debug, Eq, PartialEq, Structural)]
pub struct AtlasLayoutHandle {
    pub id: u64,
}

/// A contiguous range of frame indices, both ends inclusive.
#[derive(Clone, Copy, Debug, Eq, PartialEq, Structural)]
pub struct FrameRange {
    pub first: u32,
    pub last: u32,
}

impl FrameRange {
    /// A range is well-formed when it is non-empty.
    pub open spec fn wf(self) -> bool {
        self.first <= self.last
    }
}

/// Per-direction frame ranges for the idle and walk animations.
#[derive(Clone, Copy, Debug, Eq, PartialEq, Structural)]
pub struct PlayerAnimationConfig {
    pub idle_right: FrameRange,
    pub idle_up: FrameRange,
    pub idle_down: FrameRange,
    pub idle_left: FrameRange,
    pub walk_right: FrameRange,
    pub walk_up: FrameRange,
    pub walk_down: FrameRange,
    pub walk_left: FrameRange,
}

impl PlayerAnimationConfig {
    /// Every one of the eight ranges is well-formed.
    pub open spec fn wf(self) -> bool {
        &&& self.idle_right.wf()
        &&& self.idle_up.wf()
        &&& self.idle_down.wf()
        &&& self.idle_left.wf()
        &&& self.walk_right.wf()
        &&& self.walk_up.wf()
        &&& self.walk_down.wf()
        &&& self.walk_left.wf()
    }

    /// The range assigned to one `(activity, facing)` pair.
    pub open spec fn range_spec(self, activity: EntityState, facing: FacingDirection) -> FrameRange {
        match (activity, facing) {
            (EntityState::Idle, FacingDirection::Down) => self.idle_down,
            (EntityState::Idle, FacingDirection::Up) => self.idle_up,
            (EntityState::Idle, FacingDirection::Left) => self.idle_left,
            (EntityState::Idle, FacingDirection::Right) => self.idle_right,
            (EntityState::Moving, FacingDirection::Down) => self.walk_down,
            (EntityState::Moving, FacingDirection::Up) => self.walk_up,
            (EntityState::Moving, FacingDirection::Left) => self.walk_left,
            (EntityState::Moving, FacingDirection::Right) => self.walk_right,
        }
    }
}

/// Sheet and layout handles for the player's two sprite sheets, one per
/// activity state.
#[derive(Clone, Copy, Debug, Eq, PartialEq, Structural)]
pub struct GameAssets {
    pub player_idle: SheetHandle,
    pub player_walk: SheetHandle,
    pub player_idle_layout: AtlasLayoutHandle,
    pub player_walk_layout: AtlasLayoutHandle,
}

impl GameAssets {
    /// The sheet shown for an activity state.
    pub open spec fn sheet_spec(self, activity: EntityState) -> SheetHandle {
        if activity is Idle {
            self.player_idle
        } else {
            self.player_walk
        }
    }

    /// The atlas layout of the sheet shown for an activity state.
    pub open spec fn layout_spec(self, activity: EntityState) -> AtlasLayoutHandle {
        if activity is Idle {
            self.player_idle_layout
        } else {
            self.player_walk_layout
        }
    }

    /// The sheet and layout for an activity state.
    pub fn sheet_for_state(&self, activity: EntityState) -> (r: (SheetHandle, AtlasLayoutHandle))
        ensures
            r.0 == self.sheet_spec(activity),
            r.1 == self.layout_spec(activity),
    {
        match activity {
            EntityState::Idle => (self.player_idle, self.player_idle_layout),
            EntityState::Moving => (self.player_walk, self.player_walk_layout),
        }
    }
}

/// A looping animation clip: an inclusive frame range within one sprite
/// sheet, and the rate at which its frames are shown.
#[derive(Clone, Copy, Debug, Eq, PartialEq, Structural)]
pub struct AnimationClip {
    pub first_frame: u32,
    pub last_frame: u32,
    pub frames_per_second: u32,
}

impl AnimationClip {
    /// A clip is well-formed when its range is non-empty and its rate is
    /// positive and representable as a whole number of microseconds per
    /// frame.
    pub open spec fn wf(self) -> bool {
        &&& self.first_frame <= self.last_frame
        &&& 0 < self.frames_per_second <= MICROS_PER_SECOND
    }

    /// Build a clip, rejecting every configuration defect: a rate of zero or
    /// beyond one frame per microsecond, and an empty frame range.
    pub fn new(first_frame: u32, last_frame: u32, frames_per_second: u32) -> (r: Result<
        AnimationClip,
        ConfigError,
    >)
        ensures
            r is Ok <==> (AnimationClip { first_frame, last_frame, frames_per_second }).wf(),
            r is Ok ==> r->Ok_0 == (AnimationClip { first_frame, last_frame, frames_per_second }),
            !(0 < frames_per_second <= MICROS_PER_SECOND) ==> r == Err::<
                AnimationClip,
                ConfigError,
            >(ConfigError::InvalidFrameRate),
            0 < frames_per_second <= MICROS_PER_SECOND && first_frame > last_frame ==> r == Err::<
                AnimationClip,
                ConfigError,
            >(ConfigError::InvalidFrameRange),
    {
        if frames_per_second == 0 || frames_per_second as u64 > MICROS_PER_SECOND {
            Err(ConfigError::InvalidFrameRate)
        } else if first_frame > last_frame {
            Err(ConfigError::InvalidFrameRange)
        } else {
            Ok(AnimationClip { first_frame, last_frame, frames_per_second })
        }
    }
}

/// A configuration defect, rejected when the defective value is built —
/// before it can reach the per-tick path.
#[derive(Clone, Copy, Debug, Eq, PartialEq, Structural)]
pub enum ConfigError {
    /// A frame range with `first > last`.
    InvalidFrameRange,
    /// A playback rate of zero, or one too fine for microsecond periods.
    InvalidFrameRate,
    /// A movement speed of zero.
    InvalidSpeed,
}

/// The total mapping from `(activity, facing)` to an animation clip and the
/// sprite sheet the clip's frames live in. All eight combinations are
/// populated by construction, so lookup never fails.
#[derive(Clone, Copy, Debug, Eq, PartialEq, Structural)]
pub struct ClipTable {
    pub clips: PlayerAnimationConfig,
    pub assets: GameAssets,
    pub frames_per_second: u32,
}

impl ClipTable {
    /// Every entry of the table yields a well-formed clip.
    pub open spec fn wf(self) -> bool {
        &&& self.clips.wf()
        &&& 0 < self.frames_per_second <= MICROS_PER_SECOND
    }

    /// The clip assigned to one `(activity, facing)` pair.
    pub open spec fn clip_spec(self, activity: EntityState, facing: FacingDirection) -> AnimationClip {
        let range = self.clips.range_spec(activity, facing);
        AnimationClip {
            first_frame: range.first,
            last_frame: range.last,
            frames_per_second: self.frames_per_second,
        }
    }

    /// The sheet assigned to an activity state.
    pub open spec fn sheet_spec(self, activity: EntityState) -> SheetHandle {
        self.assets.sheet_spec(activity)
    }

    /// The atlas layout assigned to an activity state.
    pub open spec fn layout_spec(self, activity: EntityState) -> AtlasLayoutHandle {
        self.assets.layout_spec(activity)
    }

    /// Build the table, rejecting every configuration defect at construction:
    /// a defective playback rate, then any defective frame range.
    pub fn new(clips: PlayerAnimationConfig, assets: GameAssets, frames_per_second: u32) -> (r:
        Result<ClipTable, ConfigError>)
        ensures
            r is Ok <==> (ClipTable { clips, assets, frames_per_second }).wf(),
            r is Ok ==> r->Ok_0 == (ClipTable { clips, assets, frames_per_second }),
            !(0 < frames_per_second <= MICROS_PER_SECOND) ==> r == Err::<
                ClipTable,
                ConfigError,
            >(ConfigError::InvalidFrameRate),
            0 < frames_per_second <= MICROS_PER_SECOND && !clips.wf() ==> r == Err::<
                ClipTable,
                ConfigError,
            >(ConfigError::InvalidFrameRange),
    {
        if frames_per_second == 0 || frames_per_second as u64 > MICROS_PER_SECOND {
            Err(ConfigError::InvalidFrameRate)
        } else if range_ok(&clips.idle_right) && range_ok(&clips.idle_up) && range_ok(
            &clips.idle_down,
        ) && range_ok(&clips.idle_left) && range_ok(&clips.walk_right) && range_ok(&clips.walk_up)
            && range_ok(&clips.walk_down) && range_ok(&clips.walk_left) {
            Ok(ClipTable { clips, assets, frames_per_second })
        } else {
            Err(ConfigError::InvalidFrameRange)
        }
    }

    /// Resolve the clip, sheet and layout for one `(activity, facing)` pair.
    /// The table is total, so this is the only lookup path and it always
    /// succeeds.
    pub fn lookup(&self, activity: EntityState, facing: FacingDirection) -> (r: (
        AnimationClip,
        SheetHandle,
        AtlasLayoutHandle,
    ))
        requires
            self.wf(),
        ensures
            r.0 == self.clip_spec(activity, facing),
            r.0.wf(),
            r.1 == self.sheet_spec(activity),
            r.2 == self.layout_spec(activity),
    {
        let range: FrameRange = match (activity, facing) {
            (EntityState::Idle, FacingDirection::Down) => self.clips.idle_down,
            (EntityState::Idle, FacingDirection::Up) => self.clips.idle_up,
            (EntityState::Idle, FacingDirection::Left) => self.clips.idle_left,
            (EntityState::Idle, FacingDirection::Right) => self.clips.idle_right,
            (EntityState::Moving, FacingDirection::Down) => self.clips.walk_down,
            (EntityState::Moving, FacingDirection::Up) => self.clips.walk_up,
            (EntityState::Moving, FacingDirection::Left) => self.clips.walk_left,
            (EntityState::Moving, FacingDirection::Right) => self.clips.walk_right,
        };
        let clip = AnimationClip {
            first_frame: range.first,
            last_frame: range.last,
            frames_per_second: self.frames_per_second,
        };
        let (sheet, layout) = self.assets.sheet_for_state(activity);
        (clip, sheet, layout)
    }
}

/// Whether one range is non-empty.
fn range_ok(range: &FrameRange) -> (b: bool)
    ensures
        b == range.wf(),
{
    range.first <= range.last
}

} // verus!
