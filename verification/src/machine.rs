//! The riddle-solving state machine: the doors of the loaded level, their
//! answer panels, and the moves between exploring, solving and loading.

use vstd::prelude::*;
use crate::answer::{
    is_digit,
    lemma_insert_overwrites,
    lemma_round_trip,
    AnswerBuffer,
    AnswerBufferView,
};
use crate::riddle::{AnsweredRiddles, RiddleInfo, RiddleInfoView};
use crate::state::GameState;

verus! {

/// The panel on which the riddle of a door is answered.
pub struct RiddlePanelView {
    pub visible: bool,
    pub buffer: AnswerBufferView,
}

/// A riddle door of the loaded level.
pub struct DoorView {
    pub info: RiddleInfoView,
    /// Whether the door shows its "solved" marker.
    pub solved: bool,
    /// The panel on which the riddle is answered, while there is one.
    pub panel: Option<RiddlePanelView>,
}

impl DoorView {
    /// A door as it stands once its level has loaded. If its question has
    /// been answered before it shows the marker and gets no panel; else it
    /// gets a hidden panel with one empty slot per character of the answer.
    pub open spec fn installed(info: RiddleInfoView, answered: Set<Seq<char>>) -> DoorView {
        DoorView {
            info: info.with_active(false),
            solved: answered.contains(info.question),
            panel: if answered.contains(info.question) {
                None
            } else {
                Some(
                    RiddlePanelView {
                        visible: false,
                        buffer: AnswerBufferView::fresh(info.answer.len()),
                    },
                )
            },
        }
    }

    /// The number of slots of the door's panel; 0 without a panel.
    pub open spec fn answer_length(self) -> nat {
        match self.panel {
            Some(panel) => panel.buffer.answer_length(),
            None => 0,
        }
    }

    /// The door has a panel and it shows.
    pub open spec fn shows_panel(self) -> bool {
        self.panel matches Some(panel) && panel.visible
    }

    /// The panel spells the door's answer, slot by slot.
    pub open spec fn spelled_right(self) -> bool {
        self.panel matches Some(panel) && panel.buffer.slots == self.info.answer
    }

    /// The door once the player starts on its riddle: it is active, and its
    /// panel shows with the cursor on the first slot.
    pub open spec fn opened(self) -> DoorView {
        DoorView {
            info: self.info.with_active(true),
            solved: self.solved,
            panel: match self.panel {
                Some(panel) => Some(
                    RiddlePanelView { visible: true, buffer: panel.buffer.rewound() },
                ),
                None => None,
            },
        }
    }

    /// The door once the player gives up for now: it is no longer active
    /// and its panel is hidden, with what was typed still in it.
    pub open spec fn closed(self) -> DoorView {
        DoorView {
            info: self.info.with_active(false),
            solved: self.solved,
            panel: match self.panel {
                Some(panel) => Some(RiddlePanelView { visible: false, buffer: panel.buffer }),
                None => None,
            },
        }
    }

    /// The door once its riddle is answered: it is no longer active, it
    /// shows the marker, and its panel is gone.
    pub open spec fn answered(self) -> DoorView {
        DoorView { info: self.info.with_active(false), solved: true, panel: None }
    }

    /// The door after `digit` was typed on its panel.
    pub open spec fn typed(self, digit: char) -> DoorView {
        DoorView {
            info: self.info,
            solved: self.solved,
            panel: match self.panel {
                Some(panel) => Some(
                    RiddlePanelView { visible: panel.visible, buffer: panel.buffer.insert(digit) },
                ),
                None => None,
            },
        }
    }

    /// The door after a slot of its panel was deleted.
    pub open spec fn deleted(self) -> DoorView {
        DoorView {
            info: self.info,
            solved: self.solved,
            panel: match self.panel {
                Some(panel) => Some(
                    RiddlePanelView { visible: panel.visible, buffer: panel.buffer.delete() },
                ),
                None => None,
            },
        }
    }

    /// The door after `node` was offered as its interface node.
    pub open spec fn linked(self, node: u64) -> DoorView {
        DoorView { info: self.info.linked(node), solved: self.solved, panel: self.panel }
    }

    /// What holds of every door, given the questions answered so far.
    ///
    /// A panel has one slot per character of the answer and shows exactly
    /// while the door is active. An active door has a panel and an open
    /// question. A door whose question is open has a panel. The marker is
    /// shown only on doors whose question is answered.
    pub open spec fn valid(self, answered: Set<Seq<char>>) -> bool {
        &&& self.panel matches Some(panel) ==> {
            &&& panel.buffer.valid()
            &&& panel.buffer.answer_length() == self.info.answer.len()
            &&& panel.visible == self.info.active
        }
        &&& self.info.active ==> self.panel is Some && !answered.contains(self.info.question)
        &&& !answered.contains(self.info.question) ==> self.panel is Some
        &&& self.solved ==> answered.contains(self.info.question)
    }
}

/// What a [`RiddleMachine`] holds.
pub struct RiddleMachineView {
    pub state: GameState,
    /// The level that is loaded, or is to be loaded next.
    pub current_level: Seq<char>,
    /// The questions answered in this session.
    pub answered: Set<Seq<char>>,
    /// The doors of the loaded level.
    pub doors: Seq<DoorView>,
}

impl RiddleMachineView {
    /// Door `i` exists and is active.
    pub open spec fn is_active(self, i: int) -> bool {
        0 <= i < self.doors.len() && self.doors[i].info.active
    }

    /// What holds of the machine at all times: every door is valid, no two
    /// doors are active, and a door is active exactly while a riddle is
    /// being solved.
    pub open spec fn valid(self) -> bool {
        &&& forall|i: int|
            0 <= i < self.doors.len() ==> (#[trigger] self.doors[i]).valid(self.answered)
        &&& self.state is RiddleSolving ==> exists|i: int| self.is_active(i)
        &&& !(self.state is RiddleSolving) ==> forall|i: int| !self.is_active(i)
        &&& forall|i: int, j: int| self.is_active(i) && self.is_active(j) ==> i == j
    }

    /// The active door. There is exactly one while a riddle is being solved.
    pub open spec fn active_door(self) -> int {
        choose|i: int| self.is_active(i)
    }

    /// The player overlaps door `i`.
    pub open spec fn touched(self, overlaps: Seq<bool>, i: int) -> bool {
        0 <= i < self.doors.len() && i < overlaps.len() && overlaps[i]
    }

    /// Door `i` is the first door the player overlaps.
    pub open spec fn first_touched(self, overlaps: Seq<bool>, i: int) -> bool {
        self.touched(overlaps, i) && forall|j: int| 0 <= j < i ==> !self.touched(overlaps, j)
    }

    /// The player overlaps no door.
    pub open spec fn none_touched(self, overlaps: Seq<bool>) -> bool {
        forall|j: int| !self.touched(overlaps, j)
    }

    /// The machine with door `i` replaced.
    pub open spec fn with_door(self, i: int, door: DoorView) -> RiddleMachineView {
        RiddleMachineView { doors: self.doors.update(i, door), ..self }
    }

    /// The machine in another mode.
    pub open spec fn with_state(self, state: GameState) -> RiddleMachineView {
        RiddleMachineView { state, ..self }
    }

    /// A level has finished loading with doors `infos`: the doors are
    /// installed and the player may explore.
    pub open spec fn level_loaded(self, infos: Seq<RiddleInfoView>) -> RiddleMachineView {
        RiddleMachineView {
            state: GameState::MapExploring,
            current_level: self.current_level,
            answered: self.answered,
            doors: Seq::new(
                infos.len(),
                |i: int| DoorView::installed(infos[i], self.answered),
            ),
        }
    }

    /// The player starts on the riddle of door `i`.
    pub open spec fn open_riddle(self, i: int) -> RiddleMachineView {
        self.with_door(i, self.doors[i].opened()).with_state(GameState::RiddleSolving)
    }

    /// The player walks through the solved door `i`: the level behind it is
    /// to be loaded.
    pub open spec fn load_next(self, i: int) -> RiddleMachineView {
        RiddleMachineView {
            state: GameState::LevelLoading,
            current_level: self.doors[i].info.next_level,
            answered: self.answered,
            doors: self.doors,
        }
    }

    /// `digit` is typed on the panel of the active door.
    pub open spec fn type_digit(self, digit: char) -> RiddleMachineView {
        self.with_door(self.active_door(), self.doors[self.active_door()].typed(digit))
    }

    /// `digits` are typed one after the other on the panel of the active
    /// door.
    pub open spec fn type_digits(self, digits: Seq<char>) -> RiddleMachineView
        decreases digits.len(),
    {
        if digits.len() == 0 {
            self
        } else {
            self.type_digits(digits.drop_last()).type_digit(digits.last())
        }
    }

    /// A slot is deleted on the panel of the active door.
    pub open spec fn delete_digit(self) -> RiddleMachineView {
        self.with_door(self.active_door(), self.doors[self.active_door()].deleted())
    }

    /// The riddle of the active door is answered: its question is recorded,
    /// the door is marked, and the player explores again.
    pub open spec fn solve(self) -> RiddleMachineView {
        RiddleMachineView {
            state: GameState::MapExploring,
            current_level: self.current_level,
            answered: self.answered.insert(self.doors[self.active_door()].info.question),
            doors: self.doors.update(
                self.active_door(),
                self.doors[self.active_door()].answered(),
            ),
        }
    }

    /// The player leaves the riddle of the active door unanswered and
    /// explores again. Nothing is recorded.
    pub open spec fn close_riddle(self) -> RiddleMachineView {
        self.with_door(self.active_door(), self.doors[self.active_door()].closed()).with_state(
            GameState::MapExploring,
        )
    }
}

/// The views of `infos`, in order.
pub open spec fn info_views(infos: Seq<RiddleInfo>) -> Seq<RiddleInfoView> {
    Seq::new(infos.len(), |i: int| infos[i]@)
}

/// The panel on which a riddle is answered.
#[derive(Debug)]
struct RiddlePanel {
    visible: bool,
    buffer: AnswerBuffer,
}

impl View for RiddlePanel {
    type V = RiddlePanelView;

    closed spec fn view(&self) -> RiddlePanelView {
        RiddlePanelView { visible: self.visible, buffer: self.buffer@ }
    }
}

/// A riddle door of the loaded level.
#[derive(Debug)]
struct Door {
    info: RiddleInfo,
    solved: bool,
    panel: Option<RiddlePanel>,
}

impl View for Door {
    type V = DoorView;

    closed spec fn view(&self) -> DoorView {
        DoorView {
            info: self.info@,
            solved: self.solved,
            panel: match self.panel {
                Some(panel) => Some(panel@),
                None => None,
            },
        }
    }
}

impl Door {
    fn install(info: &RiddleInfo, answered: &AnsweredRiddles) -> (door: Door)
        ensures
            door@ == DoorView::installed(info@, answered@),
            door@.valid(answered@),
    {
        let mut info = info.duplicate();
        info.set_active(false);
        if answered.contains(info.question()) {
            Door { info, solved: true, panel: None }
        } else {
            let buffer = AnswerBuffer::new(info.answer_length());
            Door { info, solved: false, panel: Some(RiddlePanel { visible: false, buffer }) }
        }
    }
}

/// Sets up the doors of a level that has loaded: each door is checked
/// against the questions answered so far, and shows its marker if its
/// question is among them, or else gets a hidden panel for its answer.
fn init_riddles(infos: &Vec<RiddleInfo>, answered: &AnsweredRiddles) -> (doors: Vec<Door>)
    ensures
        doors@.len() == infos@.len(),
        forall|j: int|
            0 <= j < doors@.len() ==> (#[trigger] doors@[j])@ == DoorView::installed(
                infos@[j]@,
                answered@,
            ),
        forall|j: int| 0 <= j < doors@.len() ==> (#[trigger] doors@[j])@.valid(answered@),
{
    let mut doors: Vec<Door> = Vec::new();
    let mut i: usize = 0;
    while i < infos.len()
        invariant
            i <= infos@.len(),
            doors@.len() == i,
            forall|j: int|
                0 <= j < i ==> (#[trigger] doors@[j])@ == DoorView::installed(
                    infos@[j]@,
                    answered@,
                ),
            forall|j: int| 0 <= j < i ==> (#[trigger] doors@[j])@.valid(answered@),
        decreases infos@.len() - i,
    {
        doors.push(Door::install(&infos[i], answered));
        i = i + 1;
    }
    doors
}

/// What came of the player's try at a door.
#[derive(Clone, Copy, Debug, PartialEq, Eq)]
pub enum DoorTouch {
    /// The player is not exploring, or overlaps no door.
    Nothing,
    /// The riddle of this door has been opened.
    RiddleOpened(usize),
    /// The question of this door has been answered: the level behind the
    /// door is to be loaded.
    LevelChosen(usize),
}

/// The riddle-solving state machine of one session.
pub struct RiddleMachine {
    state: GameState,
    current_level: String,
    answered: AnsweredRiddles,
    doors: Vec<Door>,
}

impl View for RiddleMachine {
    type V = RiddleMachineView;

    closed spec fn view(&self) -> RiddleMachineView {
        RiddleMachineView {
            state: self.state,
            current_level: self.current_level@,
            answered: self.answered@,
            doors: Seq::new(self.doors@.len(), |i: int| self.doors@[i]@),
        }
    }
}

impl RiddleMachine {
    /// The machine at the start of a session: `starting_level` is to be
    /// loaded, nothing has been answered, and there are no doors yet.
    pub fn new(starting_level: String) -> (machine: RiddleMachine)
        ensures
            machine@.state is LevelLoading,
            machine@.current_level == starting_level@,
            machine@.answered == Set::<Seq<char>>::empty(),
            machine@.doors.len() == 0,
            machine@.valid(),
    {
        RiddleMachine {
            state: GameState::LevelLoading,
            current_level: starting_level,
            answered: AnsweredRiddles::new(),
            doors: Vec::new(),
        }
    }

    /// The mode the game is in.
    pub fn state(&self) -> (state: GameState)
        ensures
            state == self@.state,
    {
        self.state
    }

    /// The level that is loaded, or is to be loaded next.
    pub fn current_level(&self) -> (level: &String)
        ensures
            level@ == self@.current_level,
    {
        &self.current_level
    }

    /// The questions answered in this session.
    pub fn answered(&self) -> (answered: &AnsweredRiddles)
        ensures
            answered@ == self@.answered,
    {
        &self.answered
    }

    /// The number of doors of the loaded level.
    pub fn door_count(&self) -> (count: usize)
        ensures
            count == self@.doors.len(),
    {
        self.doors.len()
    }

    /// The riddle of door `i`, if there is such a door.
    pub fn door(&self, i: usize) -> (info: Option<&RiddleInfo>)
        ensures
            info is Some == (i < self@.doors.len()),
            info matches Some(found) ==> found@ == self@.doors[i as int].info,
    {
        if i < self.doors.len() {
            Some(&self.doors[i].info)
        } else {
            None
        }
    }

    /// Whether door `i` exists and shows its "solved" marker.
    pub fn door_is_solved(&self, i: usize) -> (solved: bool)
        ensures
            solved == (i < self@.doors.len() && self@.doors[i as int].solved),
    {
        i < self.doors.len() && self.doors[i].solved
    }

    /// Whether door `i` exists and has a panel.
    pub fn has_panel(&self, i: usize) -> (present: bool)
        ensures
            present == (i < self@.doors.len() && self@.doors[i as int].panel is Some),
    {
        i < self.doors.len() && self.doors[i].panel.is_some()
    }

    /// Whether door `i` exists and its panel shows.
    pub fn panel_is_visible(&self, i: usize) -> (visible: bool)
        ensures
            visible == (i < self@.doors.len() && self@.doors[i as int].shows_panel()),
    {
        if i < self.doors.len() {
            match &self.doors[i].panel {
                Some(panel) => panel.visible,
                None => false,
            }
        } else {
            false
        }
    }

    /// The answer buffer of door `i`, if the door exists and has a panel.
    pub fn panel_buffer(&self, i: usize) -> (buffer: Option<&AnswerBuffer>)
        ensures
            buffer is Some == (i < self@.doors.len() && self@.doors[i as int].panel is Some),
            buffer matches Some(found) ==> found@ == self@.doors[i as int].panel->0.buffer,
    {
        if i < self.doors.len() {
            match &self.doors[i].panel {
                Some(panel) => Some(&panel.buffer),
                None => None,
            }
        } else {
            None
        }
    }

    /// The active door, if there is one; the first, should there ever be
    /// more than one.
    pub fn find_active(&self) -> (found: Option<usize>)
        ensures
            match found {
                Some(i) => self@.is_active(i as int) && forall|j: int|
                    0 <= j < i ==> !self@.is_active(j),
                None => forall|i: int| !self@.is_active(i),
            },
    {
        let mut i: usize = 0;
        while i < self.doors.len()
            invariant
                i <= self.doors@.len(),
                forall|j: int| 0 <= j < i ==> !self@.is_active(j),
            decreases self.doors@.len() - i,
        {
            if self.doors[i].info.is_active() {
                return Some(i);
            }
            i = i + 1;
        }
        None
    }

    /// A level has finished loading and brought the doors `infos`.
    ///
    /// While a level is loading, the doors are installed in place of those
    /// of the level before: each is checked against the answered questions
    /// and gets its marker or its panel. Then the player may explore. At
    /// any other time the event is stale and nothing changes. The result
    /// tells whether the doors were installed.
    pub fn level_loaded(&mut self, infos: &Vec<RiddleInfo>) -> (installed: bool)
        requires
            old(self)@.valid(),
        ensures
            installed == (old(self)@.state is LevelLoading),
            final(self)@ == (if installed {
                old(self)@.level_loaded(info_views(infos@))
            } else {
                old(self)@
            }),
            final(self)@.valid(),
    {
        if self.state != GameState::LevelLoading {
            return false;
        }
        let doors = init_riddles(infos, &self.answered);
        self.doors = doors;
        self.state = GameState::MapExploring;
        proof {
            assert(self@.doors =~= old(self)@.level_loaded(info_views(infos@)).doors);
            lemma_level_loaded_keeps_valid(old(self)@, info_views(infos@));
        }
        true
    }

    /// Links `node` as the interface node of door `i`. A door keeps the
    /// first node it is given. The result tells whether `node` was taken.
    pub fn link_riddle(&mut self, i: usize, node: u64) -> (taken: bool)
        requires
            old(self)@.valid(),
        ensures
            taken == (i < old(self)@.doors.len() && old(self)@.doors[i as int].info.riddle is None),
            final(self)@ == (if taken {
                old(self)@.with_door(i as int, old(self)@.doors[i as int].linked(node))
            } else {
                old(self)@
            }),
            final(self)@.valid(),
    {
        if i >= self.doors.len() {
            return false;
        }
        let taken = self.doors[i].info.link(node);
        proof {
            assert(self@.doors =~= old(self)@.doors.update(
                i as int,
                old(self)@.doors[i as int].linked(node),
            ));
            if !taken {
                assert(self@.doors =~= old(self)@.doors);
            }
            lemma_link_keeps_valid(old(self)@, i as int, node);
        }
        taken
    }

    /// The player asks to interact, overlapping the doors marked in
    /// `overlaps` (one entry per door, in the order of the doors; doors
    /// without an entry are not overlapped).
    ///
    /// Only while exploring, and only the first overlapped door counts. If
    /// its question is still open, its riddle opens: the door becomes the
    /// active one, its panel shows with the cursor on the first slot, and
    /// the game turns to solving. If its question has been answered, the
    /// level behind the door becomes the current level and the game turns
    /// to loading, without a riddle in between.
    pub fn touch_door(&mut self, overlaps: &Vec<bool>) -> (touch: DoorTouch)
        requires
            old(self)@.valid(),
        ensures
            match touch {
                DoorTouch::Nothing => {
                    &&& !(old(self)@.state is MapExploring) || old(self)@.none_touched(overlaps@)
                    &&& final(self)@ == old(self)@
                },
                DoorTouch::RiddleOpened(i) => {
                    &&& old(self)@.state is MapExploring
                    &&& old(self)@.first_touched(overlaps@, i as int)
                    &&& !old(self)@.answered.contains(old(self)@.doors[i as int].info.question)
                    &&& final(self)@ == old(self)@.open_riddle(i as int)
                },
                DoorTouch::LevelChosen(i) => {
                    &&& old(self)@.state is MapExploring
                    &&& old(self)@.first_touched(overlaps@, i as int)
                    &&& old(self)@.answered.contains(old(self)@.doors[i as int].info.question)
                    &&& final(self)@ == old(self)@.load_next(i as int)
                },
            },
            final(self)@.valid(),
    {
        if self.state != GameState::MapExploring {
            return DoorTouch::Nothing;
        }
        let mut i: usize = 0;
        while i < self.doors.len() && i < overlaps.len() && !overlaps[i]
            invariant
                *self == *old(self),
                i <= self.doors@.len(),
                i <= overlaps@.len(),
                forall|j: int| 0 <= j < i ==> !self@.touched(overlaps@, j),
            decreases self.doors@.len() - i,
        {
            i = i + 1;
        }
        if i >= self.doors.len() || i >= overlaps.len() {
            return DoorTouch::Nothing;
        }
        if self.answered.contains(self.doors[i].info.question()) {
            self.current_level = self.doors[i].info.next_level().clone();
            self.state = GameState::LevelLoading;
            proof {
                assert(self@.doors =~= old(self)@.doors);
                lemma_load_next_keeps_valid(old(self)@, i as int);
            }
            return DoorTouch::LevelChosen(i);
        }
        assert(self@.doors[i as int].valid(self@.answered));
        let door = &mut self.doors[i];
        door.info.set_active(true);
        match &mut door.panel {
            Some(panel) => {
                panel.visible = true;
                panel.buffer.rewind();
            },
            None => {},
        }
        self.state = GameState::RiddleSolving;
        proof {
            assert(self@.doors =~= old(self)@.open_riddle(i as int).doors);
            lemma_open_riddle_keeps_valid(old(self)@, i as int);
        }
        DoorTouch::RiddleOpened(i)
    }

    /// A character arrives from the keyboard.
    ///
    /// While a riddle is being solved, a digit lands in the slot under the
    /// cursor of the active door's panel and moves the cursor on, from the
    /// last slot back to the first. Any other character is ignored, and so
    /// is a digit when the panel has no slot or no riddle is being solved.
    /// The result tells whether the character landed.
    pub fn answering_riddle(&mut self, ch: char) -> (landed: bool)
        requires
            old(self)@.valid(),
        ensures
            landed == (old(self)@.state is RiddleSolving && is_digit(ch) && old(self)@.doors[old(
                self,
            )@.active_door()].answer_length() > 0),
            final(self)@ == (if landed {
                old(self)@.type_digit(ch)
            } else {
                old(self)@
            }),
            final(self)@.valid(),
    {
        if self.state != GameState::RiddleSolving {
            return false;
        }
        let i: usize = match self.find_active() {
            Some(i) => i,
            None => {
                return false;
            },
        };
        let landed = match &mut self.doors[i].panel {
            Some(panel) => {
                if panel.buffer.answer_length() > 0 {
                    panel.buffer.insert(ch)
                } else {
                    false
                }
            },
            None => false,
        };
        proof {
            if landed {
                assert(self@.doors =~= old(self)@.type_digit(ch).doors);
                lemma_type_digit_keeps_valid(old(self)@, ch);
            } else {
                assert(self@.doors =~= old(self)@.doors);
            }
        }
        landed
    }

    /// The player asks to delete.
    ///
    /// While a riddle is being solved, the cursor of the active door's
    /// panel steps back one slot, from the first round to the last, and
    /// that slot shows the placeholder again. Nothing happens when the
    /// panel has no slot or no riddle is being solved. The result tells
    /// whether a slot was emptied.
    pub fn delete_digit(&mut self) -> (emptied: bool)
        requires
            old(self)@.valid(),
        ensures
            emptied == (old(self)@.state is RiddleSolving && old(self)@.doors[old(
                self,
            )@.active_door()].answer_length() > 0),
            final(self)@ == (if emptied {
                old(self)@.delete_digit()
            } else {
                old(self)@
            }),
            final(self)@.valid(),
    {
        if self.state != GameState::RiddleSolving {
            return false;
        }
        let i: usize = match self.find_active() {
            Some(i) => i,
            None => {
                return false;
            },
        };
        let emptied = match &mut self.doors[i].panel {
            Some(panel) => {
                if panel.buffer.answer_length() > 0 {
                    panel.buffer.delete();
                    true
                } else {
                    false
                }
            },
            None => false,
        };
        proof {
            if emptied {
                assert(self@.doors =~= old(self)@.delete_digit().doors);
                lemma_delete_digit_keeps_valid(old(self)@);
            } else {
                assert(self@.doors =~= old(self)@.doors);
            }
        }
        emptied
    }

    /// The player submits what the panel shows.
    ///
    /// While a riddle is being solved and the slots of the active door's
    /// panel, read from the first to the last, spell the door's answer
    /// exactly, the riddle is solved: the question is recorded as answered,
    /// the panel is torn down, the door shows its marker and is no longer
    /// active, and the player explores again. A wrong answer changes
    /// nothing: the panel keeps what was typed. The result tells whether
    /// the riddle was solved.
    pub fn correct_answer(&mut self) -> (solved: bool)
        requires
            old(self)@.valid(),
        ensures
            solved == (old(self)@.state is RiddleSolving && old(self)@.doors[old(
                self,
            )@.active_door()].spelled_right()),
            final(self)@ == (if solved {
                old(self)@.solve()
            } else {
                old(self)@
            }),
            final(self)@.valid(),
    {
        if self.state != GameState::RiddleSolving {
            return false;
        }
        let i: usize = match self.find_active() {
            Some(i) => i,
            None => {
                return false;
            },
        };
        let right = match &self.doors[i].panel {
            Some(panel) => panel.buffer.spells(self.doors[i].info.answer()),
            None => false,
        };
        if !right {
            return false;
        }
        let question = self.doors[i].info.question().clone();
        self.answered.insert(question);
        let door = &mut self.doors[i];
        door.info.set_active(false);
        door.solved = true;
        door.panel = None;
        self.state = GameState::MapExploring;
        proof {
            assert(self@.doors =~= old(self)@.solve().doors);
            lemma_solved_door_leads_on(old(self)@);
        }
        true
    }

    /// The player leaves the riddle unanswered.
    ///
    /// While a riddle is being solved, the active door stops being active,
    /// its panel is hidden with what was typed still in it, and the player
    /// explores again. Nothing is recorded. The result tells whether a
    /// riddle was left.
    pub fn close_riddle(&mut self) -> (left: bool)
        requires
            old(self)@.valid(),
        ensures
            left == (old(self)@.state is RiddleSolving),
            final(self)@ == (if left {
                old(self)@.close_riddle()
            } else {
                old(self)@
            }),
            final(self)@.valid(),
    {
        if self.state != GameState::RiddleSolving {
            return false;
        }
        let i: usize = match self.find_active() {
            Some(i) => i,
            None => {
                return false;
            },
        };
        let door = &mut self.doors[i];
        door.info.set_active(false);
        match &mut door.panel {
            Some(panel) => {
                panel.visible = false;
            },
            None => {},
        }
        self.state = GameState::MapExploring;
        proof {
            assert(self@.doors =~= old(self)@.close_riddle().doors);
            lemma_close_riddle_keeps_valid(old(self)@);
        }
        true
    }
}

/// Loading a level keeps the machine valid, whatever doors the level brings:
/// afterwards the player explores, no door is active, no panel shows, and a
/// door has a panel exactly if its question is still open.
pub proof fn lemma_level_loaded_keeps_valid(machine: RiddleMachineView, infos: Seq<RiddleInfoView>)
    requires
        machine.valid(),
    ensures
        machine.level_loaded(infos).valid(),
        machine.level_loaded(infos).state is MapExploring,
        machine.level_loaded(infos).answered == machine.answered,
        forall|j: int|
            0 <= j < infos.len() ==> ((#[trigger] machine.level_loaded(infos).doors[j]).panel
                is Some) == !machine.answered.contains(infos[j].question),
{
    let after = machine.level_loaded(infos);
    assert forall|j: int| !after.is_active(j) by {}
}

/// Linking an interface node keeps the machine valid: it changes the
/// handle of one door, and only if the door had none.
pub proof fn lemma_link_keeps_valid(machine: RiddleMachineView, i: int, node: u64)
    requires
        machine.valid(),
        0 <= i < machine.doors.len(),
    ensures
        machine.with_door(i, machine.doors[i].linked(node)).valid(),
        machine.doors[i].info.riddle is Some ==> machine.with_door(i, machine.doors[i].linked(node))
            == machine,
{
    let after = machine.with_door(i, machine.doors[i].linked(node));
    assert forall|j: int| after.is_active(j) == machine.is_active(j) by {}
    if machine.doors[i].info.riddle is Some {
        assert(after.doors =~= machine.doors);
    }
}

/// Opening a riddle while exploring keeps the machine valid and makes the
/// opened door the one active door.
pub proof fn lemma_open_riddle_keeps_valid(machine: RiddleMachineView, i: int)
    requires
        machine.valid(),
        machine.state is MapExploring,
        0 <= i < machine.doors.len(),
        !machine.answered.contains(machine.doors[i].info.question),
    ensures
        machine.open_riddle(i).valid(),
        machine.open_riddle(i).state is RiddleSolving,
        machine.open_riddle(i).active_door() == i,
        machine.open_riddle(i).doors[i].shows_panel(),
        machine.open_riddle(i).doors[i].panel->0.buffer.cursor == 0,
        machine.open_riddle(i).answered == machine.answered,
{
    let after = machine.open_riddle(i);
    assert(after.is_active(i));
    assert forall|j: int| after.is_active(j) implies j == i by {
        if j != i {
            assert(!machine.is_active(j));
        }
    }
    assert forall|j: int| 0 <= j < after.doors.len() implies (#[trigger] after.doors[j]).valid(
        after.answered,
    ) by {}
}

/// Walking through a solved door keeps the machine valid and records
/// nothing.
pub proof fn lemma_load_next_keeps_valid(machine: RiddleMachineView, i: int)
    requires
        machine.valid(),
        machine.state is MapExploring,
        0 <= i < machine.doors.len(),
    ensures
        machine.load_next(i).valid(),
        machine.load_next(i).state is LevelLoading,
        machine.load_next(i).current_level == machine.doors[i].info.next_level,
        machine.load_next(i).answered == machine.answered,
{
    let after = machine.load_next(i);
    assert forall|j: int| !after.is_active(j) by {
        assert(!machine.is_active(j));
    }
}

/// Typing keeps the machine valid: it changes the panel of the active door
/// and nothing else, and the mode stays.
pub proof fn lemma_type_digit_keeps_valid(machine: RiddleMachineView, digit: char)
    requires
        machine.valid(),
        machine.state is RiddleSolving,
        is_digit(digit),
        machine.doors[machine.active_door()].answer_length() > 0,
    ensures
        machine.type_digit(digit).valid(),
        machine.type_digit(digit).state is RiddleSolving,
        machine.type_digit(digit).active_door() == machine.active_door(),
        machine.type_digit(digit).answered == machine.answered,
{
    let i = machine.active_door();
    lemma_insert_overwrites(machine.doors[i].panel->0.buffer, digit);
    let typed = machine.type_digit(digit);
    assert(typed.is_active(i));
    assert forall|j: int| typed.is_active(j) implies j == i by {
        if j != i {
            assert(machine.is_active(j));
        }
    }
}

/// Deleting keeps the machine valid: it changes the panel of the active
/// door and nothing else, and the mode stays.
pub proof fn lemma_delete_digit_keeps_valid(machine: RiddleMachineView)
    requires
        machine.valid(),
        machine.state is RiddleSolving,
        machine.doors[machine.active_door()].answer_length() > 0,
    ensures
        machine.delete_digit().valid(),
        machine.delete_digit().state is RiddleSolving,
        machine.delete_digit().active_door() == machine.active_door(),
        machine.delete_digit().answered == machine.answered,
{
    let i = machine.active_door();
    let deleted = machine.delete_digit();
    assert(deleted.is_active(i));
    assert forall|j: int| deleted.is_active(j) implies j == i by {
        if j != i {
            assert(machine.is_active(j));
        }
    }
}

/// Leaving a riddle unanswered keeps the machine valid, records nothing,
/// and leaves the panel as it was but hidden.
pub proof fn lemma_close_riddle_keeps_valid(machine: RiddleMachineView)
    requires
        machine.valid(),
        machine.state is RiddleSolving,
    ensures
        machine.close_riddle().valid(),
        machine.close_riddle().state is MapExploring,
        machine.close_riddle().answered == machine.answered,
        machine.close_riddle().doors[machine.active_door()].panel is Some,
        machine.close_riddle().doors[machine.active_door()].panel->0.buffer
            == machine.doors[machine.active_door()].panel->0.buffer,
{
    let i = machine.active_door();
    let after = machine.close_riddle();
    assert forall|j: int| !after.is_active(j) by {
        if j != i {
            assert(!machine.is_active(j));
        }
    }
    assert forall|j: int| 0 <= j < after.doors.len() implies (#[trigger] after.doors[j]).valid(
        after.answered,
    ) by {}
}

/// Typing on the panel of the active door is typing into its buffer: after
/// `digits` have been typed, the machine is valid and still solving the
/// riddle of the same door, whose buffer has taken the digits in turn; no
/// other door has changed and nothing has been recorded.
pub proof fn lemma_typing_reaches_the_buffer(machine: RiddleMachineView, digits: Seq<char>)
    requires
        machine.valid(),
        machine.state is RiddleSolving,
        digits.len() > 0 ==> machine.doors[machine.active_door()].answer_length() > 0,
        forall|k: int| 0 <= k < digits.len() ==> is_digit(#[trigger] digits[k]),
    ensures
        machine.type_digits(digits).valid(),
        machine.type_digits(digits).state is RiddleSolving,
        machine.type_digits(digits).active_door() == machine.active_door(),
        machine.type_digits(digits).answered == machine.answered,
        machine.type_digits(digits).current_level == machine.current_level,
        machine.type_digits(digits).doors.len() == machine.doors.len(),
        machine.type_digits(digits).doors[machine.active_door()].info
            == machine.doors[machine.active_door()].info,
        machine.type_digits(digits).doors[machine.active_door()].panel is Some,
        machine.type_digits(digits).doors[machine.active_door()].panel->0.buffer
            == machine.doors[machine.active_door()].panel->0.buffer.insert_all(digits),
        forall|j: int|
            0 <= j < machine.doors.len() && j != machine.active_door() ==> (
            #[trigger] machine.type_digits(digits).doors[j]) == machine.doors[j],
    decreases digits.len(),
{
    if digits.len() > 0 {
        let earlier = digits.drop_last();
        lemma_typing_reaches_the_buffer(machine, earlier);
        let before = machine.type_digits(earlier);
        lemma_type_digit_keeps_valid(before, digits.last());
    }
}

/// The round trip of a riddle. The player opens the riddle of a door whose
/// panel is untouched and types the digits of its answer in order: then the
/// panel spells the answer, so that submitting solves the riddle, brings the
/// player back to exploring and puts the question on record.
pub proof fn lemma_typing_the_answer_solves(machine: RiddleMachineView, i: int)
    requires
        machine.valid(),
        machine.state is MapExploring,
        0 <= i < machine.doors.len(),
        !machine.answered.contains(machine.doors[i].info.question),
        machine.doors[i].panel->0.buffer.slots == AnswerBufferView::fresh(
            machine.doors[i].info.answer.len(),
        ).slots,
        forall|k: int|
            0 <= k < machine.doors[i].info.answer.len() ==> is_digit(
                #[trigger] machine.doors[i].info.answer[k],
            ),
    ensures
        machine.open_riddle(i).type_digits(machine.doors[i].info.answer).valid(),
        machine.open_riddle(i).type_digits(machine.doors[i].info.answer).state is RiddleSolving,
        machine.open_riddle(i).type_digits(machine.doors[i].info.answer).active_door() == i,
        machine.open_riddle(i).type_digits(machine.doors[i].info.answer).doors[i].spelled_right(),
        machine.open_riddle(i).type_digits(machine.doors[i].info.answer).solve().state
            is MapExploring,
        machine.open_riddle(i).type_digits(
            machine.doors[i].info.answer,
        ).solve().answered.contains(machine.doors[i].info.question),
{
    let answer = machine.doors[i].info.answer;
    let opened = machine.open_riddle(i);
    lemma_open_riddle_keeps_valid(machine, i);
    lemma_typing_reaches_the_buffer(opened, answer);
    lemma_round_trip(answer);
    let typed = opened.type_digits(answer);
    lemma_solved_door_leads_on(typed);
}

/// While a riddle is being solved, the active door's question is still open
/// and its panel is the only one that shows. So a riddle that has been
/// answered cannot be answered again: its door can no longer be active.
pub proof fn lemma_active_door_is_open(machine: RiddleMachineView)
    requires
        machine.valid(),
        machine.state is RiddleSolving,
    ensures
        machine.is_active(machine.active_door()),
        !machine.answered.contains(machine.doors[machine.active_door()].info.question),
        machine.doors[machine.active_door()].shows_panel(),
        forall|j: int|
            0 <= j < machine.doors.len() && j != machine.active_door() ==> !(
            #[trigger] machine.doors[j]).shows_panel(),
{
    let i = machine.active_door();
    assert forall|j: int| 0 <= j < machine.doors.len() && j != i implies !(
    #[trigger] machine.doors[j]).shows_panel() by {
        assert(!machine.is_active(j));
    }
}

/// While no riddle is being solved, no door is active and no panel shows.
pub proof fn lemma_no_panel_outside_solving(machine: RiddleMachineView)
    requires
        machine.valid(),
        !(machine.state is RiddleSolving),
    ensures
        forall|j: int|
            0 <= j < machine.doors.len() ==> !(#[trigger] machine.doors[j]).info.active
                && !machine.doors[j].shows_panel(),
{
    assert forall|j: int| 0 <= j < machine.doors.len() implies !(
    #[trigger] machine.doors[j]).info.active && !machine.doors[j].shows_panel() by {
        assert(!machine.is_active(j));
    }
}

/// At most one door is the first the player overlaps, so what a try at a
/// door leads to is decided by the overlaps and the answered questions.
pub proof fn lemma_first_touched_is_unique(
    machine: RiddleMachineView,
    overlaps: Seq<bool>,
    i: int,
    j: int,
)
    requires
        machine.first_touched(overlaps, i),
        machine.first_touched(overlaps, j),
    ensures
        i == j,
{
}

/// A solved riddle opens the way. Once the riddle of the active door is
/// solved, the player explores, the question is on record, the door shows
/// its marker, and a later try at that door chooses the level behind it
/// and never opens the riddle again.
pub proof fn lemma_solved_door_leads_on(machine: RiddleMachineView)
    requires
        machine.valid(),
        machine.state is RiddleSolving,
    ensures
        machine.solve().valid(),
        machine.solve().state is MapExploring,
        machine.solve().answered.contains(machine.doors[machine.active_door()].info.question),
        machine.solve().doors[machine.active_door()].solved,
        machine.solve().load_next(machine.active_door()).state is LevelLoading,
        machine.solve().load_next(machine.active_door()).current_level
            == machine.doors[machine.active_door()].info.next_level,
{
    let i = machine.active_door();
    let after = machine.solve();
    assert forall|j: int| !after.is_active(j) by {
        if j != i {
            assert(!machine.is_active(j));
        }
    }
    assert forall|j: int| 0 <= j < after.doors.len() implies (#[trigger] after.doors[j]).valid(
        after.answered,
    ) by {
        if j != i {
            assert(!machine.is_active(j));
        }
    }
}

} // verus!
