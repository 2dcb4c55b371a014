//! The movement controller: from the keys held this tick and the contacts
//! of the player's body to the body's new velocity.

use vstd::prelude::*;
use crate::animation::AnimationType;
use crate::contact::ContactSnapshot;

verus! {

/// Horizontal speed while a direction key is held, in velocity units.
pub const RUN_SPEED: i32 = 100;

/// Upward velocity a jump gives the body, in velocity units.
pub const JUMP_IMPULSE: i32 = 250;

/// The keys the rules care about, as held during this tick.
#[derive(Clone, Copy, Debug)]
pub struct MovementInput {
    pub left: bool,
    pub right: bool,
    pub jump: bool,
}

/// The horizontal direction the keys ask for.
#[derive(Clone, Copy, Debug, PartialEq, Eq, Structural)]
pub enum Direction {
    Left,
    Still,
    Right,
}

/// Which way the sprite looks.
#[derive(Clone, Copy, Debug, PartialEq, Eq, Structural)]
pub enum Facing {
    Left,
    Right,
}

/// The velocity of a body, in whole velocity units. Up and right are positive.
#[derive(Clone, Copy, Debug, PartialEq, Eq, Structural)]
pub struct Velocity {
    pub x: i32,
    pub y: i32,
}

/// What the controller knows about the player's movement. Only the facing
/// outlives a tick; the rest is set anew from the keys each time.
#[derive(Clone, Copy, Debug, PartialEq, Eq, Structural)]
pub struct MovementState {
    /// The direction the keys ask for.
    pub direction: Direction,
    /// The animation that goes with it, as a coarse signal of moving or
    /// not: running while a direction is asked for, idle otherwise.
    pub animation: AnimationType,
    /// Which way the sprite looks.
    pub facing: Facing,
}

impl MovementInput {
    /// Left alone means left, right alone means right; neither or both
    /// means standing still.
    pub open spec fn direction(&self) -> Direction {
        if self.left && !self.right {
            Direction::Left
        } else if self.right && !self.left {
            Direction::Right
        } else {
            Direction::Still
        }
    }

    /// The direction the keys ask for.
    pub fn read_direction(&self) -> (direction: Direction)
        ensures
            direction == self.direction(),
    {
        if self.left && !self.right {
            Direction::Left
        } else if self.right && !self.left {
            Direction::Right
        } else {
            Direction::Still
        }
    }
}

impl Direction {
    /// -1 for left, 0 for still, +1 for right.
    pub open spec fn sign(&self) -> int {
        match self {
            Direction::Left => -1,
            Direction::Still => 0,
            Direction::Right => 1,
        }
    }

    /// The horizontal velocity this direction sets.
    pub open spec fn velocity(&self) -> int {
        self.sign() * RUN_SPEED
    }

    /// The facing after moving in this direction, given the facing before.
    pub open spec fn facing(&self, before: Facing) -> Facing {
        match self {
            Direction::Left => Facing::Left,
            Direction::Still => before,
            Direction::Right => Facing::Right,
        }
    }

    /// The coarse signal of moving or not: running in a direction, idle
    /// when still.
    pub open spec fn animation(&self) -> AnimationType {
        if self is Still {
            AnimationType::Idle
        } else {
            AnimationType::Run
        }
    }
}

impl MovementState {
    /// The state of a player who has not moved yet: standing, looking right.
    pub fn new() -> (state: MovementState)
        ensures
            state.direction is Still,
            state.animation is Idle,
            state.facing is Right,
    {
        MovementState {
            direction: Direction::Still,
            animation: AnimationType::Idle,
            facing: Facing::Right,
        }
    }

    /// Whether the sprite is to be mirrored, which it is when looking left.
    pub fn flip_x(&self) -> (flip: bool)
        ensures
            flip == (self.facing is Left),
    {
        self.facing == Facing::Left
    }

    /// Whether the player is trying to move.
    pub fn is_moving(&self) -> (moving: bool)
        ensures
            moving == !(self.direction is Still),
    {
        self.direction != Direction::Still
    }
}

/// Whether the player jumps this tick: the jump key is held and something
/// holds the player up.
pub open spec fn jumps(input: MovementInput, contacts: ContactSnapshot, player: u64) -> bool {
    input.jump && contacts.supports(player)
}

/// One tick of the movement controller.
///
/// The horizontal velocity is assigned, never added to: it depends on the
/// keys alone. The vertical velocity is set to the jump impulse when the jump
/// key is held and a contact holds the player up, and is left alone
/// otherwise. The state takes the direction, the signal of moving or not,
/// and the facing, which turns only when a direction is asked for. The
/// result tells whether the player jumped.
///
/// The contacts are looked at only while the jump key is held; then each
/// manifold must name its first body.
pub fn player_movement(
    input: &MovementInput,
    contacts: &ContactSnapshot,
    player: u64,
    velocity: &mut Velocity,
    state: &mut MovementState,
) -> (jumped: bool)
    requires
        input.jump ==> contacts.well_formed(),
    ensures
        jumped == jumps(*input, *contacts, player),
        final(velocity).x == input.direction().velocity(),
        final(velocity).x == RUN_SPEED || final(velocity).x == -RUN_SPEED || final(velocity).x == 0,
        final(velocity).y == (if jumped { JUMP_IMPULSE } else { old(velocity).y }),
        final(state).direction == input.direction(),
        final(state).animation == input.direction().animation(),
        final(state).facing == input.direction().facing(old(state).facing),
{
    let direction = input.read_direction();
    match direction {
        Direction::Left => {
            velocity.x = -RUN_SPEED;
            state.facing = Facing::Left;
            state.animation = AnimationType::Run;
        },
        Direction::Right => {
            velocity.x = RUN_SPEED;
            state.facing = Facing::Right;
            state.animation = AnimationType::Run;
        },
        Direction::Still => {
            velocity.x = 0;
            state.animation = AnimationType::Idle;
        },
    }
    state.direction = direction;
    if input.jump {
        if contacts.is_supported(player) {
            velocity.y = JUMP_IMPULSE;
            return true;
        }
    }
    false
}

/// After a tick the horizontal velocity is one of three values, whatever it
/// was before and whatever the contacts are.
pub proof fn lemma_horizontal_velocity_is_exact(input: MovementInput)
    ensures
        input.direction().velocity() == RUN_SPEED || input.direction().velocity() == -RUN_SPEED
            || input.direction().velocity() == 0,
        input.direction().velocity() == RUN_SPEED <==> input.right && !input.left,
        input.direction().velocity() == -RUN_SPEED <==> input.left && !input.right,
        input.direction().velocity() == 0 <==> input.left == input.right,
{
}

} // verus!
