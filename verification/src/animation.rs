//! The animation selector: which of the player's animations plays, which of
//! its frames shows, and the four checks that switch between animations.

use vstd::prelude::*;
use vstd::arithmetic::div_mod::{lemma_mod_bound, lemma_mod_self_0, lemma_small_mod};
use crate::contact::{ContactEvent, ContactSnapshot};
use crate::hashed::{frame_map_contents, frame_map_get, frame_map_insert, frame_map_new, FrameMap};
use crate::movement::Velocity;
use crate::timer::{FrameTimer, FrameTimerView};

verus! {

/// The player's animations.
#[derive(Clone, Copy, Debug, PartialEq, Eq, Hash, Structural)]
pub enum AnimationType {
    Idle,
    Run,
    Jump,
    Fall,
}

impl Default for AnimationType {
    /// The animation a player starts in.
    fn default() -> (animation: AnimationType)
        ensures
            animation is Idle,
    {
        AnimationType::Idle
    }
}

impl AnimationType {
    /// The number under which the animation's frames are stored.
    pub open spec fn code(self) -> u8 {
        match self {
            AnimationType::Idle => 0,
            AnimationType::Run => 1,
            AnimationType::Jump => 2,
            AnimationType::Fall => 3,
        }
    }

    fn to_code(self) -> (code: u8)
        ensures
            code == self.code(),
    {
        match self {
            AnimationType::Idle => 0,
            AnimationType::Run => 1,
            AnimationType::Jump => 2,
            AnimationType::Fall => 3,
        }
    }
}

/// No animation has an empty frame sequence.
pub open spec fn all_nonempty(table: Map<AnimationType, Seq<usize>>) -> bool {
    forall|animation: AnimationType| #[trigger]
        table.contains_key(animation) ==> table[animation].len() > 0
}

/// The frame sequences of the animations that have been registered: for each
/// animation the sprite-sheet indices of its frames, in playing order. A
/// registered sequence is never empty.
pub struct AnimationTable {
    frames: FrameMap,
}

impl View for AnimationTable {
    type V = Map<AnimationType, Seq<usize>>;

    closed spec fn view(&self) -> Map<AnimationType, Seq<usize>> {
        Map::new(
            |animation: AnimationType|
                frame_map_contents(self.frames).contains_key(animation.code()),
            |animation: AnimationType| frame_map_contents(self.frames)[animation.code()],
        )
    }
}

impl AnimationTable {
    /// A table without animations.
    pub fn new() -> (table: AnimationTable)
        ensures
            table@ == Map::<AnimationType, Seq<usize>>::empty(),
            all_nonempty(table@),
    {
        let table = AnimationTable { frames: frame_map_new() };
        table
    }

    /// Registers the frames of an animation, in place of any it had before.
    /// An empty sequence cannot be played and is turned down.
    pub fn insert(&mut self, animation: AnimationType, frames: Vec<usize>) -> (accepted: bool)
        ensures
            accepted == (frames@.len() > 0),
            final(self)@ == (if accepted {
                old(self)@.insert(animation, frames@)
            } else {
                old(self)@
            }),
            all_nonempty(old(self)@) ==> all_nonempty(final(self)@),
    {
        if frames.len() == 0 {
            return false;
        }
        frame_map_insert(&mut self.frames, animation.to_code(), frames);
        true
    }

    /// The frames of an animation, if it has been registered.
    pub fn get(&self, animation: AnimationType) -> (frames: Option<&Vec<usize>>)
        ensures
            frames is Some == self@.contains_key(animation),
            frames matches Some(found) ==> found@ == self@[animation],
    {
        frame_map_get(&self.frames, animation.to_code())
    }

    /// Whether an animation has been registered.
    pub fn contains(&self, animation: AnimationType) -> (found: bool)
        ensures
            found == self@.contains_key(animation),
    {
        self.get(animation).is_some()
    }
}

/// What an [`AnimationInfo`] holds.
pub struct AnimationInfoView {
    /// The registered animations.
    pub animations: Map<AnimationType, Seq<usize>>,
    /// The animation that plays.
    pub current: AnimationType,
    /// Its frames.
    pub frames: Seq<usize>,
    /// The cursor into the frames.
    pub index: nat,
    /// The timer that advances the cursor.
    pub timer: FrameTimerView,
}

impl AnimationInfoView {
    /// No registered sequence is empty, the playing sequence is the
    /// registered one, and the cursor points into it.
    pub open spec fn valid(self) -> bool {
        &&& all_nonempty(self.animations)
        &&& self.animations.contains_key(self.current)
        &&& self.animations[self.current] == self.frames
        &&& self.frames.len() > 0
        &&& self.index < self.frames.len()
        &&& self.timer.valid()
    }

    /// The sprite-sheet index under the cursor.
    pub open spec fn frame(self) -> usize {
        self.frames[self.index as int]
    }

    /// Switching to `animation`. Nothing changes when it already plays or
    /// was never registered; otherwise its frames play from the start and
    /// the timer is made to fire at the next tick.
    pub open spec fn set_animation(self, animation: AnimationType) -> AnimationInfoView {
        if animation == self.current || !self.animations.contains_key(animation) {
            self
        } else {
            AnimationInfoView {
                animations: self.animations,
                current: animation,
                frames: self.animations[animation],
                index: 0,
                timer: self.timer.expire(),
            }
        }
    }

    /// Letting `delta` pass: when the timer fires the cursor moves on by one
    /// and wraps at the end of the sequence.
    pub open spec fn advance(self, delta: nat) -> AnimationInfoView {
        AnimationInfoView {
            animations: self.animations,
            current: self.current,
            frames: self.frames,
            index: if self.timer.fires(delta) {
                (self.index + 1) % self.frames.len()
            } else {
                self.index
            },
            timer: self.timer.tick(delta),
        }
    }

    /// `self` after `animation` was asked for if `guard` holds, else `self`.
    pub open spec fn switch_if(self, guard: bool, animation: AnimationType) -> AnimationInfoView {
        if guard {
            self.set_animation(animation)
        } else {
            self
        }
    }
}

/// Switching keeps the cursor inside the frames: whatever animation is
/// asked for, a valid state stays valid, and after a switch the cursor is on
/// the first frame of a sequence that is not empty.
pub proof fn lemma_set_animation_keeps_cursor_valid(
    info: AnimationInfoView,
    animation: AnimationType,
)
    requires
        info.valid(),
    ensures
        info.set_animation(animation).valid(),
        info.set_animation(animation).index < info.set_animation(animation).frames.len(),
        info.set_animation(animation).current != info.current ==> info.set_animation(
            animation,
        ).index == 0,
{
}

/// Advancing keeps the cursor inside the frames, however much time passes
/// and however long the sequence is.
pub proof fn lemma_advance_keeps_cursor_valid(info: AnimationInfoView, delta: nat)
    requires
        info.valid(),
    ensures
        info.advance(delta).valid(),
        info.advance(delta).index < info.advance(delta).frames.len(),
        info.advance(delta).frames == info.frames,
{
    if info.timer.fires(delta) {
        lemma_mod_bound((info.index + 1) as int, info.frames.len() as int);
    }
    if info.timer.fires(delta) && info.timer.period != 0 {
        lemma_mod_bound((info.timer.elapsed + delta) as int, info.timer.period as int);
    }
}

/// The player comes to rest: not idle already and not in a jump, no
/// horizontal velocity, and standing on something.
pub open spec fn idle_guard(current: AnimationType, velocity: Velocity, supported: bool) -> bool {
    !(current is Idle) && !(current is Jump) && velocity.x == 0 && supported
}

/// The player runs: not in a jump, some horizontal velocity, and standing on
/// something.
pub open spec fn run_guard(current: AnimationType, velocity: Velocity, supported: bool) -> bool {
    !(current is Jump) && velocity.x != 0 && supported
}

/// The player takes off: not in a jump already, a contact has just ended,
/// and the body is not moving down.
pub open spec fn jump_guard(current: AnimationType, velocity: Velocity, contact_lost: bool) -> bool {
    !(current is Jump) && contact_lost && velocity.y >= 0
}

/// The player falls: not falling already, not moving up, and standing on
/// nothing.
pub open spec fn fall_guard(current: AnimationType, velocity: Velocity, supported: bool) -> bool {
    !(current is Fall) && velocity.y <= 0 && !supported
}

/// One of the events says that an ordinary contact has ended.
pub open spec fn any_contact_loss(events: Seq<ContactEvent>) -> bool {
    exists|k: int| 0 <= k < events.len() && (#[trigger] events[k]).is_contact_loss()
}

/// Whether one of the events says that an ordinary contact has ended.
pub fn contact_was_lost(events: &Vec<ContactEvent>) -> (lost: bool)
    ensures
        lost == any_contact_loss(events@),
{
    let mut k: usize = 0;
    while k < events.len()
        invariant
            k <= events@.len(),
            forall|n: int| 0 <= n < k ==> !(#[trigger] events@[n]).is_contact_loss(),
        decreases events@.len() - k,
    {
        if events[k].contact_lost() {
            return true;
        }
        k = k + 1;
    }
    false
}

fn copy_frames(frames: &Vec<usize>) -> (copy: Vec<usize>)
    ensures
        copy@ == frames@,
{
    let mut copy: Vec<usize> = Vec::new();
    let mut k: usize = 0;
    while k < frames.len()
        invariant
            k <= frames@.len(),
            copy@ == frames@.subrange(0, k as int),
        decreases frames@.len() - k,
    {
        copy.push(frames[k]);
        k = k + 1;
    }
    copy
}

/// The animation state of the player: the registered animations, the one
/// that plays, the cursor into its frames and the timer that moves it.
pub struct AnimationInfo {
    animations: AnimationTable,
    current_animation_type: AnimationType,
    current_animation: Vec<usize>,
    index: usize,
    timer: FrameTimer,
}

impl View for AnimationInfo {
    type V = AnimationInfoView;

    closed spec fn view(&self) -> AnimationInfoView {
        AnimationInfoView {
            animations: self.animations@,
            current: self.current_animation_type,
            frames: self.current_animation@,
            index: self.index as nat,
            timer: self.timer@,
        }
    }
}

impl AnimationInfo {
    /// Starts with `animation_type` playing from its first frame.
    ///
    /// The animation must have been registered: a player without frames to
    /// show cannot be drawn.
    pub fn new(animations: AnimationTable, animation_type: AnimationType, timer: FrameTimer) -> (info:
        AnimationInfo)
        requires
            all_nonempty(animations@),
            animations@.contains_key(animation_type),
        ensures
            info@.animations == animations@,
            info@.current == animation_type,
            info@.frames == animations@[animation_type],
            info@.index == 0,
            info@.timer == timer@,
            info@.valid(),
    {
        let current_animation = match animations.get(animation_type) {
            Some(frames) => copy_frames(frames),
            None => Vec::new(),
        };
        proof {
            use_type_invariant(&timer);
        }
        AnimationInfo {
            animations,
            current_animation_type: animation_type,
            current_animation,
            index: 0,
            timer,
        }
    }

    /// The animation that plays.
    pub fn current_animation_type(&self) -> (animation: AnimationType)
        ensures
            animation == self@.current,
    {
        self.current_animation_type
    }

    /// The cursor into the playing animation's frames.
    pub fn index(&self) -> (index: usize)
        ensures
            index == self@.index,
    {
        self.index
    }

    /// The sprite-sheet index to show.
    pub fn frame(&self) -> (frame: usize)
        requires
            self@.valid(),
        ensures
            frame == self@.frame(),
    {
        self.current_animation[self.index]
    }

    /// Switches to `animation_type`, unless it already plays or was never
    /// registered. After a switch the cursor is at the first frame and the
    /// timer fires at the next tick.
    pub fn set_animation(&mut self, animation_type: AnimationType)
        requires
            old(self)@.valid(),
        ensures
            final(self)@ == old(self)@.set_animation(animation_type),
            final(self)@.valid(),
    {
        if animation_type == self.current_animation_type {
            return ;
        }
        let next = match self.animations.get(animation_type) {
            Some(frames) => Some(copy_frames(frames)),
            None => None,
        };
        if let Some(frames) = next {
            self.current_animation_type = animation_type;
            self.current_animation = frames;
            self.index = 0;
            self.timer.expire();
        }
    }

    /// Lets `delta` nanoseconds pass. When the timer fires, the cursor moves
    /// to the next frame, wrapping at the end, and that frame is returned
    /// for display.
    pub fn advance(&mut self, delta: u64) -> (shown: Option<usize>)
        requires
            old(self)@.valid(),
        ensures
            final(self)@ == old(self)@.advance(delta as nat),
            final(self)@.valid(),
            shown is Some == old(self)@.timer.fires(delta as nat),
            shown matches Some(frame) ==> frame == final(self)@.frame(),
    {
        let len: usize = self.current_animation.len();
        let fired = self.timer.tick(delta);
        if fired {
            let next: usize = if self.index + 1 == len {
                proof {
                    lemma_mod_self_0(len as int);
                }
                0
            } else {
                proof {
                    lemma_small_mod((self.index + 1) as nat, len as nat);
                }
                self.index + 1
            };
            self.index = next;
            Some(self.current_animation[self.index])
        } else {
            None
        }
    }

    /// Switches to idle when the player has come to rest on the ground.
    pub fn idle_animation_trigger(
        &mut self,
        player: u64,
        velocity: &Velocity,
        contacts: &ContactSnapshot,
    )
        requires
            old(self)@.valid(),
            contacts.well_formed(),
        ensures
            final(self)@ == old(self)@.switch_if(
                idle_guard(old(self)@.current, *velocity, contacts.supports(player)),
                AnimationType::Idle,
            ),
            final(self)@.valid(),
    {
        if self.current_animation_type == AnimationType::Idle || self.current_animation_type
            == AnimationType::Jump {
            return ;
        }
        if velocity.x != 0 {
            return ;
        }
        if contacts.is_supported(player) {
            self.set_animation(AnimationType::Idle);
        }
    }

    /// Switches to running when the player moves sideways on the ground.
    pub fn run_animation_trigger(
        &mut self,
        player: u64,
        velocity: &Velocity,
        contacts: &ContactSnapshot,
    )
        requires
            old(self)@.valid(),
            contacts.well_formed(),
        ensures
            final(self)@ == old(self)@.switch_if(
                run_guard(old(self)@.current, *velocity, contacts.supports(player)),
                AnimationType::Run,
            ),
            final(self)@.valid(),
    {
        if self.current_animation_type == AnimationType::Jump {
            return ;
        }
        if velocity.x == 0 {
            return ;
        }
        if contacts.is_supported(player) {
            self.set_animation(AnimationType::Run);
        }
    }

    /// Switches to jumping when a contact has just ended and the player is
    /// not moving down.
    pub fn jump_animation_trigger(&mut self, velocity: &Velocity, events: &Vec<ContactEvent>)
        requires
            old(self)@.valid(),
        ensures
            final(self)@ == old(self)@.switch_if(
                jump_guard(old(self)@.current, *velocity, any_contact_loss(events@)),
                AnimationType::Jump,
            ),
            final(self)@.valid(),
    {
        if self.current_animation_type == AnimationType::Jump {
            return ;
        }
        if velocity.y < 0 {
            return ;
        }
        if contact_was_lost(events) {
            self.set_animation(AnimationType::Jump);
        }
    }

    /// Switches to falling when nothing holds the player up and the player
    /// is not moving up.
    pub fn fall_animation_trigger(
        &mut self,
        player: u64,
        velocity: &Velocity,
        contacts: &ContactSnapshot,
    )
        requires
            old(self)@.valid(),
            contacts.well_formed(),
        ensures
            final(self)@ == old(self)@.switch_if(
                fall_guard(old(self)@.current, *velocity, contacts.supports(player)),
                AnimationType::Fall,
            ),
            final(self)@.valid(),
    {
        if self.current_animation_type == AnimationType::Fall {
            return ;
        }
        if velocity.y > 0 {
            return ;
        }
        if !contacts.is_supported(player) {
            self.set_animation(AnimationType::Fall);
        }
    }
}

} // verus!
