//! Movement and facing resolution.
//!
//! One resolution step reads the four held direction keys, builds a raw
//! direction vector whose components are `-1`, `0` or `1`, and derives the
//! activity state and the facing direction from that same sample: a non-zero
//! vector means the entity is moving and faces its dominant axis, with ties
//! broken toward the vertical axis; the zero vector means the entity is idle
//! and keeps its previous facing.

use crate::clip::ConfigError;
use vstd::math::abs;
use vstd::prelude::*;

verus! {

/// Movement speed in distance units per second. The rate is positive: a
/// speed of zero is a configuration defect, rejected at construction.
#[derive(Clone, Copy, Debug, Eq, PartialEq, Structural)]
pub struct MovementSpeed {
    pub units_per_second: u32,
}

impl MovementSpeed {
    /// The speed is positive.
    pub open spec fn wf(self) -> bool {
        self.units_per_second > 0
    }

    /// Build a speed, rejecting zero.
    pub fn new(units_per_second: u32) -> (r: Result<MovementSpeed, ConfigError>)
        ensures
            r is Ok <==> units_per_second > 0,
            r is Ok ==> r->Ok_0 == (MovementSpeed { units_per_second }),
            units_per_second == 0 ==> r == Err::<MovementSpeed, ConfigError>(
                ConfigError::InvalidSpeed,
            ),
    {
        if units_per_second == 0 {
            Err(ConfigError::InvalidSpeed)
        } else {
            Ok(MovementSpeed { units_per_second })
        }
    }
}

/// The four cardinal directions the character can face.
#[derive(Clone, Copy, Debug, Eq, PartialEq, Structural)]
pub enum FacingDirection {
    Up,
    Down,
    Left,
    Right,
}

impl Default for FacingDirection {
    /// A freshly spawned character faces down.
    fn default() -> (d: Self)
        ensures
            d == FacingDirection::Down,
    {
        FacingDirection::Down
    }
}

/// Whether the character is standing still or walking.
#[derive(Clone, Copy, Debug, Eq, PartialEq, Structural)]
pub enum EntityState {
    Idle,
    Moving,
}

impl Default for EntityState {
    /// A freshly spawned character is idle.
    fn default() -> (s: Self)
        ensures
            s == EntityState::Idle,
    {
        EntityState::Idle
    }
}

/// A raw input direction. Each component is `-1`, `0` or `1`: the sum of the
/// two opposing keys of its axis, so opposing keys cancel.
#[derive(Clone, Copy, Debug, Eq, PartialEq, Structural)]
pub struct DirectionVector {
    pub x: i32,
    pub y: i32,
}

/// The outcome of one movement-resolution step.
#[derive(Clone, Copy, Debug, Eq, PartialEq, Structural)]
pub struct MovementResolution {
    pub direction: DirectionVector,
    pub facing: FacingDirection,
    pub activity: EntityState,
}

/// Contribution of one axis: `1` for the positive key alone, `-1` for the
/// negative key alone, `0` when neither or both are held.
pub open spec fn axis_component(negative_held: bool, positive_held: bool) -> i32 {
    if positive_held && !negative_held {
        1i32
    } else if negative_held && !positive_held {
        -1i32
    } else {
        0i32
    }
}

/// The direction vector built from the four held keys. `up` points toward
/// positive `y`, `right` toward positive `x`.
pub open spec fn direction_of_keys(up: bool, down: bool, left: bool, right: bool) -> DirectionVector {
    DirectionVector { x: axis_component(left, right), y: axis_component(down, up) }
}

/// The facing derived from a direction vector: the dominant axis wins, a tie
/// between equal non-zero magnitudes goes to the vertical axis, and the zero
/// vector keeps the current facing.
pub open spec fn facing_of_direction(dir: DirectionVector, current: FacingDirection) -> FacingDirection {
    if dir.x == 0 && dir.y == 0 {
        current
    } else if abs(dir.x as int) > abs(dir.y as int) {
        if dir.x > 0 {
            FacingDirection::Right
        } else {
            FacingDirection::Left
        }
    } else if dir.y > 0 {
        FacingDirection::Up
    } else {
        FacingDirection::Down
    }
}

/// Moving exactly when the direction vector is non-zero.
pub open spec fn activity_of_direction(dir: DirectionVector) -> EntityState {
    if dir.x == 0 && dir.y == 0 {
        EntityState::Idle
    } else {
        EntityState::Moving
    }
}

/// The full outcome of resolving one sample of held keys.
pub open spec fn movement_resolution(
    up: bool,
    down: bool,
    left: bool,
    right: bool,
    current: FacingDirection,
) -> MovementResolution {
    let dir = direction_of_keys(up, down, left, right);
    MovementResolution {
        direction: dir,
        facing: facing_of_direction(dir, current),
        activity: activity_of_direction(dir),
    }
}

/// Resolve one sample of held keys into a direction vector, a facing and an
/// activity state. The four keys are independent booleans: opposing keys
/// cancel, and a diagonal pair yields a diagonal vector.
pub fn resolve_movement(
    up: bool,
    down: bool,
    left: bool,
    right: bool,
    current: FacingDirection,
) -> (r: MovementResolution)
    ensures
        r == movement_resolution(up, down, left, right, current),
{
    let mut dx: i32 = 0;
    let mut dy: i32 = 0;
    if up {
        dy = dy + 1;
    }
    if down {
        dy = dy - 1;
    }
    if left {
        dx = dx - 1;
    }
    if right {
        dx = dx + 1;
    }
    let facing: FacingDirection = if dx == 0 && dy == 0 {
        current
    } else if dx != 0 && dy == 0 {
        if dx > 0 {
            FacingDirection::Right
        } else {
            FacingDirection::Left
        }
    } else if dy > 0 {
        FacingDirection::Up
    } else {
        FacingDirection::Down
    };
    let activity: EntityState = if dx == 0 && dy == 0 {
        EntityState::Idle
    } else {
        EntityState::Moving
    };
    MovementResolution { direction: DirectionVector { x: dx, y: dy }, facing, activity }
}

/// Tie-break law: whenever both components of the resolved direction are
/// non-zero with equal magnitude, the facing follows the vertical axis — up
/// for positive `y`, down for negative `y`.
pub proof fn lemma_facing_tie_breaks_vertical(
    up: bool,
    down: bool,
    left: bool,
    right: bool,
    current: FacingDirection,
)
    ensures
        ({
            let r = movement_resolution(up, down, left, right, current);
            r.direction.x != 0 && abs(r.direction.x as int) == abs(r.direction.y as int)
                ==> r.facing == (if r.direction.y > 0 {
                    FacingDirection::Up
                } else {
                    FacingDirection::Down
                })
        }),
{
}

/// A non-zero resolved direction has squared length 1 (one axis held) or 2
/// (a diagonal), and the resolution is idle exactly when the vector is zero.
/// Scaling the direction by the step distance and dividing by its length
/// therefore displaces by the same magnitude however many axes are combined.
pub proof fn lemma_direction_squared_magnitude(
    up: bool,
    down: bool,
    left: bool,
    right: bool,
    current: FacingDirection,
)
    ensures
        ({
            let r = movement_resolution(up, down, left, right, current);
            let m = r.direction.x * r.direction.x + r.direction.y * r.direction.y;
            &&& r.activity is Idle <==> r.direction.x == 0 && r.direction.y == 0
            &&& r.activity is Moving ==> m == 1 || m == 2
        }),
{
    let r = movement_resolution(up, down, left, right, current);
    let dx = r.direction.x;
    let dy = r.direction.y;
    assert(dx == -1 ==> dx * dx == 1);
    assert(dx == 1 ==> dx * dx == 1);
    assert(dx == 0 ==> dx * dx == 0);
    assert(dy == -1 ==> dy * dy == 1);
    assert(dy == 1 ==> dy * dy == 1);
    assert(dy == 0 ==> dy * dy == 0);
}

} // verus!
