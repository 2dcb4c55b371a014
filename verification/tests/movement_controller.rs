use puzzle_up::contact::{ContactManifold, ContactPair, ContactSnapshot, NormalY};
use puzzle_up::animation::AnimationType;
use puzzle_up::movement::{
    player_movement, Direction, Facing, MovementInput, MovementState, Velocity, JUMP_IMPULSE,
    RUN_SPEED,
};

const PLAYER: u64 = 1;
const GROUND: u64 = 2;

fn standing() -> ContactSnapshot {
    ContactSnapshot {
        pairs: vec![ContactPair {
            other_body: GROUND,
            manifolds: vec![ContactManifold {
                first_body: Some(GROUND),
                normal_y: NormalY::PlusOne,
            }],
        }],
    }
}

fn against_wall() -> ContactSnapshot {
    ContactSnapshot {
        pairs: vec![ContactPair {
            other_body: GROUND,
            manifolds: vec![ContactManifold {
                first_body: Some(PLAYER),
                normal_y: NormalY::Zero,
            }],
        }],
    }
}

fn keys(left: bool, right: bool, jump: bool) -> MovementInput {
    MovementInput { left, right, jump }
}

#[test]
fn constants_have_their_values() {
    assert_eq!(RUN_SPEED, 100);
    assert_eq!(JUMP_IMPULSE, 250);
    assert!(JUMP_IMPULSE > 0);
}

#[test]
fn left_alone_runs_left_and_faces_left() {
    let mut velocity = Velocity { x: 37, y: -5 };
    let mut state = MovementState::new();
    let jumped =
        player_movement(&keys(true, false, false), &standing(), PLAYER, &mut velocity, &mut state);
    assert!(!jumped);
    assert_eq!(velocity, Velocity { x: -100, y: -5 });
    assert_eq!(state.direction, Direction::Left);
    assert_eq!(state.facing, Facing::Left);
    assert!(state.flip_x());
    assert_eq!(state.animation, AnimationType::Run);
    assert!(state.is_moving());
}

#[test]
fn right_alone_runs_right_and_faces_right() {
    let mut velocity = Velocity { x: -100, y: 0 };
    let mut state = MovementState {
        direction: Direction::Left,
        animation: AnimationType::Run,
        facing: Facing::Left,
    };
    player_movement(&keys(false, true, false), &standing(), PLAYER, &mut velocity, &mut state);
    assert_eq!(velocity, Velocity { x: 100, y: 0 });
    assert_eq!(state.direction, Direction::Right);
    assert_eq!(state.animation, AnimationType::Run);
    assert_eq!(state.facing, Facing::Right);
    assert!(!state.flip_x());
}

#[test]
fn no_keys_stop_at_once_and_keep_the_facing() {
    let mut velocity = Velocity { x: -100, y: 12 };
    let mut state = MovementState {
        direction: Direction::Left,
        animation: AnimationType::Run,
        facing: Facing::Left,
    };
    player_movement(&keys(false, false, false), &standing(), PLAYER, &mut velocity, &mut state);
    assert_eq!(velocity, Velocity { x: 0, y: 12 });
    assert_eq!(state.direction, Direction::Still);
    assert_eq!(state.facing, Facing::Left);
    assert_eq!(state.animation, AnimationType::Idle);
    assert!(!state.is_moving());
}

#[test]
fn both_keys_cancel_out() {
    let mut velocity = Velocity { x: 100, y: 0 };
    let mut state = MovementState::new();
    player_movement(&keys(true, true, false), &standing(), PLAYER, &mut velocity, &mut state);
    assert_eq!(velocity.x, 0);
    assert_eq!(state.direction, Direction::Still);
    assert_eq!(state.facing, Facing::Right);
}

#[test]
fn horizontal_velocity_does_not_build_up() {
    let mut velocity = Velocity { x: 0, y: 0 };
    let mut state = MovementState::new();
    for _ in 0..5 {
        player_movement(&keys(false, true, false), &standing(), PLAYER, &mut velocity, &mut state);
        assert_eq!(velocity.x, RUN_SPEED);
    }
}

#[test]
fn jump_on_the_ground_sets_the_impulse() {
    let mut velocity = Velocity { x: 0, y: -3 };
    let mut state = MovementState::new();
    let jumped =
        player_movement(&keys(false, false, true), &standing(), PLAYER, &mut velocity, &mut state);
    assert!(jumped);
    assert_eq!(velocity, Velocity { x: 0, y: 250 });
}

#[test]
fn jump_held_on_the_ground_jumps_again_without_adding_up() {
    let mut velocity = Velocity { x: 0, y: 250 };
    let mut state = MovementState::new();
    let jumped =
        player_movement(&keys(false, false, true), &standing(), PLAYER, &mut velocity, &mut state);
    assert!(jumped);
    assert_eq!(velocity.y, 250);
}

#[test]
fn jump_in_the_air_changes_nothing_vertical() {
    let mut velocity = Velocity { x: 0, y: -77 };
    let mut state = MovementState::new();
    let jumped = player_movement(
        &keys(false, true, true),
        &ContactSnapshot::new(),
        PLAYER,
        &mut velocity,
        &mut state,
    );
    assert!(!jumped);
    assert_eq!(velocity, Velocity { x: 100, y: -77 });
}

#[test]
fn jump_against_a_wall_changes_nothing_vertical() {
    let mut velocity = Velocity { x: 0, y: 5 };
    let mut state = MovementState::new();
    let jumped = player_movement(
        &keys(true, false, true),
        &against_wall(),
        PLAYER,
        &mut velocity,
        &mut state,
    );
    assert!(!jumped);
    assert_eq!(velocity, Velocity { x: -100, y: 5 });
}

#[test]
fn standing_without_jump_key_does_not_jump() {
    let mut velocity = Velocity { x: 0, y: 0 };
    let mut state = MovementState::new();
    let jumped =
        player_movement(&keys(false, false, false), &standing(), PLAYER, &mut velocity, &mut state);
    assert!(!jumped);
    assert_eq!(velocity.y, 0);
}

#[test]
fn read_direction_covers_all_key_combinations() {
    assert_eq!(keys(false, false, false).read_direction(), Direction::Still);
    assert_eq!(keys(true, false, false).read_direction(), Direction::Left);
    assert_eq!(keys(false, true, false).read_direction(), Direction::Right);
    assert_eq!(keys(true, true, true).read_direction(), Direction::Still);
}

#[test]
fn a_new_state_stands_still_and_looks_right() {
    let state = MovementState::new();
    assert_eq!(state.direction, Direction::Still);
    assert_eq!(state.animation, AnimationType::Idle);
    assert_eq!(state.facing, Facing::Right);
    assert!(!state.flip_x());
    assert!(!state.is_moving());
}
