use sprite_motion::clip::ConfigError;
use sprite_motion::movement::{
    resolve_movement, EntityState, FacingDirection, MovementSpeed,
};

#[test]
fn single_key_up() {
    let r = resolve_movement(true, false, false, false, FacingDirection::Down);
    assert_eq!(r.direction.x, 0);
    assert_eq!(r.direction.y, 1);
    assert_eq!(r.facing, FacingDirection::Up);
    assert_eq!(r.activity, EntityState::Moving);
}

#[test]
fn single_key_down() {
    let r = resolve_movement(false, true, false, false, FacingDirection::Up);
    assert_eq!(r.direction.x, 0);
    assert_eq!(r.direction.y, -1);
    assert_eq!(r.facing, FacingDirection::Down);
    assert_eq!(r.activity, EntityState::Moving);
}

#[test]
fn single_key_left() {
    let r = resolve_movement(false, false, true, false, FacingDirection::Down);
    assert_eq!(r.direction.x, -1);
    assert_eq!(r.direction.y, 0);
    assert_eq!(r.facing, FacingDirection::Left);
    assert_eq!(r.activity, EntityState::Moving);
}

#[test]
fn single_key_right() {
    let r = resolve_movement(false, false, false, true, FacingDirection::Down);
    assert_eq!(r.direction.x, 1);
    assert_eq!(r.direction.y, 0);
    assert_eq!(r.facing, FacingDirection::Right);
    assert_eq!(r.activity, EntityState::Moving);
}

#[test]
fn opposing_keys_cancel() {
    let r = resolve_movement(true, true, false, false, FacingDirection::Left);
    assert_eq!(r.direction.x, 0);
    assert_eq!(r.direction.y, 0);
    assert_eq!(r.activity, EntityState::Idle);
    assert_eq!(r.facing, FacingDirection::Left);
}

#[test]
fn all_keys_cancel() {
    let r = resolve_movement(true, true, true, true, FacingDirection::Right);
    assert_eq!(r.direction.x, 0);
    assert_eq!(r.direction.y, 0);
    assert_eq!(r.activity, EntityState::Idle);
    assert_eq!(r.facing, FacingDirection::Right);
}

#[test]
fn no_keys_keep_facing_and_go_idle() {
    let r = resolve_movement(false, false, false, false, FacingDirection::Up);
    assert_eq!(r.activity, EntityState::Idle);
    assert_eq!(r.facing, FacingDirection::Up);
}

#[test]
fn diagonal_tie_up_right_faces_up() {
    let r = resolve_movement(true, false, false, true, FacingDirection::Down);
    assert_eq!(r.direction.x, 1);
    assert_eq!(r.direction.y, 1);
    assert_eq!(r.facing, FacingDirection::Up);
    assert_eq!(r.activity, EntityState::Moving);
}

#[test]
fn diagonal_tie_up_left_faces_up() {
    let r = resolve_movement(true, false, true, false, FacingDirection::Right);
    assert_eq!(r.facing, FacingDirection::Up);
}

#[test]
fn diagonal_tie_down_right_faces_down() {
    let r = resolve_movement(false, true, false, true, FacingDirection::Right);
    assert_eq!(r.direction.x, 1);
    assert_eq!(r.direction.y, -1);
    assert_eq!(r.facing, FacingDirection::Down);
}

#[test]
fn diagonal_tie_down_left_faces_down() {
    let r = resolve_movement(false, true, true, false, FacingDirection::Up);
    assert_eq!(r.facing, FacingDirection::Down);
}

#[test]
fn diagonal_direction_has_squared_length_two() {
    let r = resolve_movement(true, false, false, true, FacingDirection::Down);
    let m = r.direction.x * r.direction.x + r.direction.y * r.direction.y;
    assert_eq!(m, 2);
}

#[test]
fn single_axis_direction_has_squared_length_one() {
    let r = resolve_movement(false, false, true, false, FacingDirection::Down);
    let m = r.direction.x * r.direction.x + r.direction.y * r.direction.y;
    assert_eq!(m, 1);
}

#[test]
fn horizontal_dominates_when_vertical_cancels() {
    let r = resolve_movement(true, true, true, false, FacingDirection::Up);
    assert_eq!(r.direction.x, -1);
    assert_eq!(r.direction.y, 0);
    assert_eq!(r.facing, FacingDirection::Left);
}

#[test]
fn speed_of_zero_is_rejected() {
    assert_eq!(MovementSpeed::new(0), Err(ConfigError::InvalidSpeed));
}

#[test]
fn positive_speed_is_accepted() {
    let s = MovementSpeed::new(500).unwrap();
    assert_eq!(s.units_per_second, 500);
}

#[test]
fn default_facing_is_down() {
    assert_eq!(FacingDirection::default(), FacingDirection::Down);
}

#[test]
fn default_activity_is_idle() {
    assert_eq!(EntityState::default(), EntityState::Idle);
}
