use puzzle_up::animation::{contact_was_lost, AnimationInfo, AnimationTable, AnimationType};
use puzzle_up::contact::{
    ContactEvent, ContactManifold, ContactPair, ContactPhase, ContactSnapshot, NormalY,
};
use puzzle_up::movement::Velocity;
use puzzle_up::timer::FrameTimer;

const PLAYER: u64 = 1;
const GROUND: u64 = 2;
const PERIOD: u64 = 200_000_000;

fn table() -> AnimationTable {
    let mut table = AnimationTable::new();
    assert!(table.insert(AnimationType::Idle, vec![0]));
    assert!(table.insert(AnimationType::Run, vec![9, 10]));
    assert!(table.insert(AnimationType::Jump, vec![1]));
    assert!(table.insert(AnimationType::Fall, vec![2]));
    table
}

fn player() -> AnimationInfo {
    AnimationInfo::new(table(), AnimationType::Idle, FrameTimer::new(PERIOD))
}

fn player_in(animation: AnimationType) -> AnimationInfo {
    let mut info = player();
    info.set_animation(animation);
    info
}

fn standing() -> ContactSnapshot {
    ContactSnapshot {
        pairs: vec![ContactPair {
            other_body: GROUND,
            manifolds: vec![ContactManifold {
                first_body: Some(PLAYER),
                normal_y: NormalY::MinusOne,
            }],
        }],
    }
}

fn airborne() -> ContactSnapshot {
    ContactSnapshot::new()
}

fn velocity(x: i32, y: i32) -> Velocity {
    Velocity { x, y }
}

fn stopped(flags: u32) -> ContactEvent {
    ContactEvent { phase: ContactPhase::Stopped, first: PLAYER, second: GROUND, flags }
}

#[test]
fn timer_gathers_time_until_the_period() {
    let mut timer = FrameTimer::new(10);
    assert_eq!(timer.period(), 10);
    assert!(!timer.tick(4));
    assert_eq!(timer.elapsed(), 4);
    assert!(!timer.tick(5));
    assert_eq!(timer.elapsed(), 9);
    assert!(timer.tick(1));
    assert_eq!(timer.elapsed(), 0);
}

#[test]
fn timer_keeps_what_goes_beyond_a_period() {
    let mut timer = FrameTimer::new(10);
    assert!(timer.tick(37));
    assert_eq!(timer.elapsed(), 7);
    assert!(!timer.tick(2));
    assert_eq!(timer.elapsed(), 9);
}

#[test]
fn timer_survives_the_largest_tick() {
    let mut timer = FrameTimer::new(1_000);
    assert!(!timer.tick(999));
    assert!(timer.tick(u64::MAX));
    assert_eq!(timer.elapsed(), ((999u128 + u64::MAX as u128) % 1_000) as u64);
}

#[test]
fn timer_without_period_fires_every_tick() {
    let mut timer = FrameTimer::new(0);
    assert!(timer.tick(0));
    assert!(timer.tick(5));
    assert_eq!(timer.elapsed(), 0);
}

#[test]
fn expired_timer_fires_at_the_next_tick() {
    let mut timer = FrameTimer::new(10);
    timer.expire();
    assert_eq!(timer.elapsed(), 10);
    assert!(timer.tick(0));
    assert_eq!(timer.elapsed(), 0);
}

#[test]
fn table_keeps_what_was_inserted() {
    let table = table();
    assert_eq!(table.get(AnimationType::Run), Some(&vec![9, 10]));
    assert_eq!(table.get(AnimationType::Fall), Some(&vec![2]));
    assert!(table.contains(AnimationType::Idle));
}

#[test]
fn empty_table_has_no_animation() {
    let table = AnimationTable::new();
    assert_eq!(table.get(AnimationType::Idle), None);
    assert!(!table.contains(AnimationType::Jump));
}

#[test]
fn table_replaces_frames_on_second_insert() {
    let mut table = AnimationTable::new();
    assert!(table.insert(AnimationType::Run, vec![1, 2, 3]));
    assert!(table.insert(AnimationType::Run, vec![4]));
    assert_eq!(table.get(AnimationType::Run), Some(&vec![4]));
    assert_eq!(table.get(AnimationType::Idle), None);
}

#[test]
fn table_turns_down_an_empty_sequence() {
    let mut table = AnimationTable::new();
    assert!(!table.insert(AnimationType::Run, vec![]));
    assert!(!table.contains(AnimationType::Run));
    assert!(table.insert(AnimationType::Run, vec![5]));
    assert!(!table.insert(AnimationType::Run, vec![]));
    assert_eq!(table.get(AnimationType::Run), Some(&vec![5]));
}

#[test]
fn new_starts_on_the_first_frame() {
    let info = player();
    assert_eq!(info.current_animation_type(), AnimationType::Idle);
    assert_eq!(info.index(), 0);
    assert_eq!(info.frame(), 0);
}

#[test]
fn set_animation_resets_cursor_and_fires_at_once() {
    let mut info = player();
    info.set_animation(AnimationType::Run);
    assert_eq!(info.current_animation_type(), AnimationType::Run);
    assert_eq!(info.index(), 0);
    assert_eq!(info.frame(), 9);
    assert_eq!(info.advance(0), Some(10));
    assert_eq!(info.index(), 1);
}

#[test]
fn set_animation_to_the_same_animation_is_a_no_op() {
    let mut info = player_in(AnimationType::Run);
    assert_eq!(info.advance(0), Some(10));
    assert_eq!(info.advance(PERIOD / 2), None);
    info.set_animation(AnimationType::Run);
    assert_eq!(info.index(), 1);
    assert_eq!(info.advance(PERIOD / 2 - 1), None);
    assert_eq!(info.advance(1), Some(9));
}

#[test]
fn set_animation_to_an_unregistered_animation_is_a_no_op() {
    let mut table = AnimationTable::new();
    table.insert(AnimationType::Idle, vec![3, 4]);
    let mut info = AnimationInfo::new(table, AnimationType::Idle, FrameTimer::new(PERIOD));
    assert_eq!(info.advance(PERIOD), Some(4));
    info.set_animation(AnimationType::Fall);
    assert_eq!(info.current_animation_type(), AnimationType::Idle);
    assert_eq!(info.index(), 1);
    assert_eq!(info.frame(), 4);
}

#[test]
fn advance_wraps_the_cursor() {
    let mut table = AnimationTable::new();
    table.insert(AnimationType::Run, vec![5, 6, 7]);
    let mut info = AnimationInfo::new(table, AnimationType::Run, FrameTimer::new(10));
    assert_eq!(info.advance(9), None);
    assert_eq!(info.index(), 0);
    assert_eq!(info.advance(1), Some(6));
    assert_eq!(info.advance(10), Some(7));
    assert_eq!(info.index(), 2);
    assert_eq!(info.advance(10), Some(5));
    assert_eq!(info.index(), 0);
}

#[test]
fn advance_on_a_single_frame_stays_on_it() {
    let mut info = player();
    for _ in 0..4 {
        assert_eq!(info.advance(PERIOD), Some(0));
        assert_eq!(info.index(), 0);
    }
}

#[test]
fn idle_trigger_needs_rest_on_the_ground() {
    let mut info = player_in(AnimationType::Run);
    info.idle_animation_trigger(PLAYER, &velocity(0, 0), &standing());
    assert_eq!(info.current_animation_type(), AnimationType::Idle);

    let mut moving = player_in(AnimationType::Run);
    moving.idle_animation_trigger(PLAYER, &velocity(100, 0), &standing());
    assert_eq!(moving.current_animation_type(), AnimationType::Run);

    let mut falling = player_in(AnimationType::Fall);
    falling.idle_animation_trigger(PLAYER, &velocity(0, -10), &airborne());
    assert_eq!(falling.current_animation_type(), AnimationType::Fall);

    let mut landed = player_in(AnimationType::Fall);
    landed.idle_animation_trigger(PLAYER, &velocity(0, 0), &standing());
    assert_eq!(landed.current_animation_type(), AnimationType::Idle);
}

#[test]
fn idle_trigger_leaves_a_jump_alone() {
    let mut info = player_in(AnimationType::Jump);
    info.idle_animation_trigger(PLAYER, &velocity(0, 0), &standing());
    assert_eq!(info.current_animation_type(), AnimationType::Jump);
}

#[test]
fn run_trigger_needs_speed_on_the_ground() {
    let mut info = player();
    info.run_animation_trigger(PLAYER, &velocity(-100, 0), &standing());
    assert_eq!(info.current_animation_type(), AnimationType::Run);

    let mut still = player();
    still.run_animation_trigger(PLAYER, &velocity(0, 0), &standing());
    assert_eq!(still.current_animation_type(), AnimationType::Idle);

    let mut flying = player_in(AnimationType::Fall);
    flying.run_animation_trigger(PLAYER, &velocity(100, 0), &airborne());
    assert_eq!(flying.current_animation_type(), AnimationType::Fall);

    let mut jumping = player_in(AnimationType::Jump);
    jumping.run_animation_trigger(PLAYER, &velocity(100, 0), &standing());
    assert_eq!(jumping.current_animation_type(), AnimationType::Jump);
}

#[test]
fn run_trigger_does_not_restart_a_run() {
    let mut info = player_in(AnimationType::Run);
    assert_eq!(info.advance(0), Some(10));
    info.run_animation_trigger(PLAYER, &velocity(100, 0), &standing());
    assert_eq!(info.index(), 1);
    assert_eq!(info.advance(0), None);
}

#[test]
fn jump_trigger_needs_a_lost_contact_and_no_descent() {
    let mut info = player();
    info.jump_animation_trigger(&velocity(0, 250), &vec![stopped(0)]);
    assert_eq!(info.current_animation_type(), AnimationType::Jump);

    let mut level = player();
    level.jump_animation_trigger(&velocity(0, 0), &vec![stopped(1), stopped(0)]);
    assert_eq!(level.current_animation_type(), AnimationType::Jump);

    let mut sinking = player();
    sinking.jump_animation_trigger(&velocity(0, -1), &vec![stopped(0)]);
    assert_eq!(sinking.current_animation_type(), AnimationType::Idle);

    let mut quiet = player();
    quiet.jump_animation_trigger(&velocity(0, 250), &vec![]);
    assert_eq!(quiet.current_animation_type(), AnimationType::Idle);

    let mut sensor = player();
    sensor.jump_animation_trigger(&velocity(0, 250), &vec![stopped(1)]);
    assert_eq!(sensor.current_animation_type(), AnimationType::Idle);
}

#[test]
fn fall_trigger_needs_thin_air_and_no_ascent() {
    let mut info = player();
    info.fall_animation_trigger(PLAYER, &velocity(0, -30), &airborne());
    assert_eq!(info.current_animation_type(), AnimationType::Fall);
    assert_eq!(info.frame(), 2);

    let mut apex = player_in(AnimationType::Jump);
    apex.fall_animation_trigger(PLAYER, &velocity(0, 0), &airborne());
    assert_eq!(apex.current_animation_type(), AnimationType::Fall);

    let mut rising = player_in(AnimationType::Jump);
    rising.fall_animation_trigger(PLAYER, &velocity(0, 1), &airborne());
    assert_eq!(rising.current_animation_type(), AnimationType::Jump);

    let mut grounded = player();
    grounded.fall_animation_trigger(PLAYER, &velocity(0, 0), &standing());
    assert_eq!(grounded.current_animation_type(), AnimationType::Idle);
}

#[test]
fn contact_was_lost_looks_at_every_event() {
    let started = ContactEvent { phase: ContactPhase::Started, first: 1, second: 2, flags: 0 };
    assert!(!contact_was_lost(&vec![]));
    assert!(!contact_was_lost(&vec![started, stopped(2)]));
    assert!(contact_was_lost(&vec![started, stopped(2), stopped(0)]));
}

#[test]
fn a_player_starts_idle() {
    assert_eq!(AnimationType::default(), AnimationType::Idle);
}
