//! Riddle doors: what a door knows about its riddle, and the session's
//! record of the riddles that have been answered.

use vstd::prelude::*;
use crate::fields::{
    field_entries,
    holds_text,
    is_last_named,
    lemma_later_field_counts,
    ConfigError,
    FieldTable,
    LevelField,
};
use crate::hashed::{
    string_set_contains,
    string_set_contents,
    string_set_insert,
    string_set_new,
    StringSet,
};

verus! {

/// The questions answered so far in this session. It outlives the levels:
/// whether a door counts as solved is decided here and nowhere else.
pub struct AnsweredRiddles {
    questions: StringSet,
}

impl View for AnsweredRiddles {
    type V = Set<Seq<char>>;

    closed spec fn view(&self) -> Set<Seq<char>> {
        string_set_contents(self.questions)
    }
}

impl AnsweredRiddles {
    /// The record of a session in which nothing has been answered yet.
    pub fn new() -> (answered: AnsweredRiddles)
        ensures
            answered@ == Set::<Seq<char>>::empty(),
    {
        AnsweredRiddles { questions: string_set_new() }
    }

    /// Whether `question` has been answered.
    pub fn contains(&self, question: &String) -> (answered: bool)
        ensures
            answered == self@.contains(question@),
    {
        string_set_contains(&self.questions, question)
    }

    /// Records `question` as answered. The result tells whether it was new.
    pub fn insert(&mut self, question: String) -> (fresh: bool)
        ensures
            final(self)@ == old(self)@.insert(question@),
            fresh == !old(self)@.contains(question@),
    {
        string_set_insert(&mut self.questions, question)
    }
}

/// What a [`RiddleInfo`] holds.
pub struct RiddleInfoView {
    pub question: Seq<char>,
    /// The expected answer; only a literal match counts.
    pub answer: Seq<char>,
    /// The handle of the interface node that shows the riddle, once linked.
    pub riddle: Option<u64>,
    /// Whether this is the door whose riddle is being worked on.
    pub active: bool,
    /// The level behind the door.
    pub next_level: Seq<char>,
}

impl RiddleInfoView {
    /// The values of a door read from `table`: the three texts that its
    /// fields hold, no interface node yet, and inactive.
    pub open spec fn from_table(table: Map<Seq<char>, Option<Seq<char>>>) -> RiddleInfoView {
        RiddleInfoView {
            question: table["question"@]->0,
            answer: table["answer"@]->0,
            riddle: None,
            active: false,
            next_level: table["next_level"@]->0,
        }
    }

    /// The same door, active or not.
    pub open spec fn with_active(self, active: bool) -> RiddleInfoView {
        RiddleInfoView { active, ..self }
    }

    /// The same door once `node` is offered as its interface node: the
    /// first node offered is kept for good.
    pub open spec fn linked(self, node: u64) -> RiddleInfoView {
        if self.riddle is Some {
            self
        } else {
            RiddleInfoView { riddle: Some(node), ..self }
        }
    }
}

/// The error, if any, that a door with the fields of `table` is turned down
/// with. A door needs a question, an answer and a next level, each in a
/// field that holds a string; the first of the three that is not there, or
/// holds no string, is the error.
pub open spec fn door_error(table: Map<Seq<char>, Option<Seq<char>>>) -> Option<ConfigError> {
    if !holds_text(table, "question"@) {
        Some(ConfigError::MissingQuestion)
    } else if !holds_text(table, "answer"@) {
        Some(ConfigError::MissingAnswer)
    } else if !holds_text(table, "next_level"@) {
        Some(ConfigError::MissingNextLevel)
    } else {
        None
    }
}

/// Among `fields` there is one called `name`, and the last of that name is a
/// string field with a string in it.
pub open spec fn gives_string(fields: Seq<LevelField>, name: Seq<char>) -> bool {
    exists|k: int| #[trigger] is_last_named(fields, name, k) && fields[k].value.text(false) is Some
}

/// A door is read only from strings: no error comes up exactly if question,
/// answer and next level are each given as a string, by the last field of
/// that name. A door is never made up from a field that is missing, empty
/// or of another type.
pub proof fn lemma_door_needs_three_strings(fields: Seq<LevelField>)
    ensures
        door_error(field_entries(fields, false)) is None <==> gives_string(fields, "question"@)
            && gives_string(fields, "answer"@) && gives_string(fields, "next_level"@),
{
    lemma_field_gives_string(fields, "question"@);
    lemma_field_gives_string(fields, "answer"@);
    lemma_field_gives_string(fields, "next_level"@);
}

/// The table holds text under `name` exactly if the last field of that name
/// is a string field with a string in it.
pub proof fn lemma_field_gives_string(fields: Seq<LevelField>, name: Seq<char>)
    ensures
        holds_text(field_entries(fields, false), name) <==> gives_string(fields, name),
{
    lemma_later_field_counts(fields, false, name);
    if holds_text(field_entries(fields, false), name) {
        let k = choose|k: int| #[trigger] is_last_named(fields, name, k);
        assert(is_last_named(fields, name, k) && fields[k].value.text(false) is Some);
    }
    if gives_string(fields, name) {
        let k = choose|k: int| #[trigger]
            is_last_named(fields, name, k) && fields[k].value.text(false) is Some;
        assert(is_last_named(fields, name, k));
    }
}

/// The riddle of one door.
#[derive(Debug)]
pub struct RiddleInfo {
    question: String,
    answer: String,
    riddle: Option<u64>,
    active: bool,
    next_level: String,
}

impl View for RiddleInfo {
    type V = RiddleInfoView;

    closed spec fn view(&self) -> RiddleInfoView {
        RiddleInfoView {
            question: self.question@,
            answer: self.answer@,
            riddle: self.riddle,
            active: self.active,
            next_level: self.next_level@,
        }
    }
}

impl RiddleInfo {
    /// A door with the given riddle, not active and without interface node.
    pub fn new(question: String, answer: String, next_level: String) -> (info: RiddleInfo)
        ensures
            info@ == (RiddleInfoView {
                question: question@,
                answer: answer@,
                riddle: None,
                active: false,
                next_level: next_level@,
            }),
    {
        RiddleInfo { question, answer, riddle: None, active: false, next_level }
    }

    /// Reads a door from the fields of its level entity. A door needs a
    /// question, an answer and a next level, each given as a string: a
    /// field that is not there, that the editor left empty, or that is of
    /// another type gives no string. The first of the three that is not
    /// given is reported, and no door is made; nothing is ever filled in.
    pub fn from_fields(fields: &Vec<LevelField>) -> (door: Result<RiddleInfo, ConfigError>)
        ensures
            match door {
                Ok(info) => door_error(field_entries(fields@, false)) is None && info@
                    == RiddleInfoView::from_table(field_entries(fields@, false)),
                Err(error) => door_error(field_entries(fields@, false)) == Some(error),
            },
    {
        let table = FieldTable::collect(fields, false);
        let question = match table.text("question") {
            Some(text) => text.clone(),
            None => {
                return Err(ConfigError::MissingQuestion);
            },
        };
        let answer = match table.text("answer") {
            Some(text) => text.clone(),
            None => {
                return Err(ConfigError::MissingAnswer);
            },
        };
        let next_level = match table.text("next_level") {
            Some(text) => text.clone(),
            None => {
                return Err(ConfigError::MissingNextLevel);
            },
        };
        Ok(RiddleInfo::new(question, answer, next_level))
    }

    /// A copy of this door.
    pub fn duplicate(&self) -> (copy: RiddleInfo)
        ensures
            copy@ == self@,
    {
        RiddleInfo {
            question: self.question.clone(),
            answer: self.answer.clone(),
            riddle: self.riddle,
            active: self.active,
            next_level: self.next_level.clone(),
        }
    }

    pub fn question(&self) -> (question: &String)
        ensures
            question@ == self@.question,
    {
        &self.question
    }

    pub fn answer(&self) -> (answer: &String)
        ensures
            answer@ == self@.answer,
    {
        &self.answer
    }

    pub fn next_level(&self) -> (next_level: &String)
        ensures
            next_level@ == self@.next_level,
    {
        &self.next_level
    }

    /// The handle of the interface node that shows the riddle, once linked.
    pub fn riddle(&self) -> (riddle: Option<u64>)
        ensures
            riddle == self@.riddle,
    {
        self.riddle
    }

    /// Whether this is the door whose riddle is being worked on.
    pub fn is_active(&self) -> (active: bool)
        ensures
            active == self@.active,
    {
        self.active
    }

    /// The number of characters of the answer, which is the number of
    /// slots its buffer gets.
    pub fn answer_length(&self) -> (length: usize)
        ensures
            length == self@.answer.len(),
    {
        self.answer.as_str().unicode_len()
    }

    /// Links the interface node that shows the riddle. The first node
    /// linked stays; the result tells whether `node` was taken.
    pub fn link(&mut self, node: u64) -> (taken: bool)
        ensures
            taken == (old(self)@.riddle is None),
            final(self)@ == old(self)@.linked(node),
    {
        if self.riddle.is_some() {
            false
        } else {
            self.riddle = Some(node);
            true
        }
    }

    /// Marks the door as the one being worked on, or as not.
    pub(crate) fn set_active(&mut self, active: bool)
        ensures
            final(self)@ == old(self)@.with_active(active),
    {
        self.active = active;
    }
}

} // verus!
