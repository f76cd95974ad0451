//! Movement and animation core for a controllable character in a 2D top-down
//! scene.
//!
//! The library converts a sample of held directional keys into a movement
//! direction, a facing and an activity state, and drives a frame-looping
//! sprite animation that stays consistent with that state:
//!
//! - [`movement`] resolves held keys into a direction vector, a
//!   [`movement::FacingDirection`] and a [`movement::EntityState`];
//! - [`clip`] holds the total table mapping every `(activity, facing)` pair to
//!   an animation clip and the sprite sheet its frames live in;
//! - [`ticker`] advances the current frame at the clip's fixed rate,
//!   independently of the variable step time, looping within the clip bounds;
//! - [`controller`] swaps the whole animation runtime state atomically when
//!   the resolved clip changes, and delegates to the ticker otherwise.
//!
//! Durations are plain microsecond counts and sprite-sheet handles are plain
//! identifiers, so every rule above is stated and proved over integers. The
//! caller owns the clock, the key queries and the rendering, and integrates
//! the returned direction into a position.

pub mod clip;
pub mod controller;
pub mod movement;
pub mod ticker;
