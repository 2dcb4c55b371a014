//! The answer buffer of a riddle: a fixed row of character slots and a
//! cursor that walks it in a circle.

use vstd::prelude::*;
use vstd::arithmetic::div_mod::{lemma_mod_self_0, lemma_small_mod};
use vstd::string::StringExecFns;

verus! {

/// What an empty slot shows.
pub const PLACEHOLDER: char = '_';

/// The characters that can be typed into a slot.
pub open spec fn is_digit(ch: char) -> bool {
    '0' <= ch <= '9'
}

/// Whether `ch` can be typed into a slot.
pub fn char_is_digit(ch: char) -> (digit: bool)
    ensures
        digit == is_digit(ch),
{
    '0' <= ch && ch <= '9'
}

/// What an [`AnswerBuffer`] holds.
pub struct AnswerBufferView {
    /// The slot the next digit goes to.
    pub cursor: nat,
    /// What each slot shows, first slot first.
    pub slots: Seq<char>,
}

impl AnswerBufferView {
    /// The number of slots.
    pub open spec fn answer_length(self) -> nat {
        self.slots.len()
    }

    /// The cursor points at a slot (or is 0 where there is none), and every
    /// slot shows a digit or the placeholder.
    pub open spec fn valid(self) -> bool {
        &&& self.slots.len() == 0 ==> self.cursor == 0
        &&& self.slots.len() > 0 ==> self.cursor < self.slots.len()
        &&& forall|k: int|
            0 <= k < self.slots.len() ==> is_digit(#[trigger] self.slots[k]) || self.slots[k]
                == PLACEHOLDER
    }

    /// A buffer of `answer_length` empty slots with the cursor on the first.
    pub open spec fn fresh(answer_length: nat) -> AnswerBufferView {
        AnswerBufferView { cursor: 0, slots: Seq::new(answer_length, |k: int| PLACEHOLDER) }
    }

    /// The slot before the cursor, going round from the first to the last.
    pub open spec fn previous(self) -> nat {
        if self.cursor == 0 {
            (self.slots.len() - 1) as nat
        } else {
            (self.cursor - 1) as nat
        }
    }

    /// Typing `digit`: it lands in the slot under the cursor, and the cursor
    /// moves on, from the last slot back to the first.
    pub open spec fn insert(self, digit: char) -> AnswerBufferView {
        AnswerBufferView {
            cursor: (self.cursor + 1) % self.slots.len(),
            slots: self.slots.update(self.cursor as int, digit),
        }
    }

    /// Deleting: the cursor steps back, from the first slot round to the
    /// last, and the slot it reaches is emptied.
    pub open spec fn delete(self) -> AnswerBufferView {
        AnswerBufferView {
            cursor: self.previous(),
            slots: self.slots.update(self.previous() as int, PLACEHOLDER),
        }
    }

    /// The same slots with the cursor back on the first.
    pub open spec fn rewound(self) -> AnswerBufferView {
        AnswerBufferView { cursor: 0, slots: self.slots }
    }

    /// Typing `digits` one after the other.
    pub open spec fn insert_all(self, digits: Seq<char>) -> AnswerBufferView
        decreases digits.len(),
    {
        if digits.len() == 0 {
            self
        } else {
            self.insert_all(digits.drop_last()).insert(digits.last())
        }
    }
}

/// The answer buffer of one riddle.
#[derive(Debug)]
pub struct AnswerBuffer {
    cursor: usize,
    slots: Vec<char>,
}

impl View for AnswerBuffer {
    type V = AnswerBufferView;

    closed spec fn view(&self) -> AnswerBufferView {
        AnswerBufferView { cursor: self.cursor as nat, slots: self.slots@ }
    }
}

/// The one-character text of a slot.
fn slot_text(shown: char) -> (text: &'static str)
    requires
        is_digit(shown) || shown == PLACEHOLDER,
    ensures
        text@ == seq![shown],
{
    proof {
        reveal_strlit("0");
        reveal_strlit("1");
        reveal_strlit("2");
        reveal_strlit("3");
        reveal_strlit("4");
        reveal_strlit("5");
        reveal_strlit("6");
        reveal_strlit("7");
        reveal_strlit("8");
        reveal_strlit("9");
        reveal_strlit("_");
    }
    let text = match shown {
        '0' => "0",
        '1' => "1",
        '2' => "2",
        '3' => "3",
        '4' => "4",
        '5' => "5",
        '6' => "6",
        '7' => "7",
        '8' => "8",
        '9' => "9",
        _ => "_",
    };
    text
}

impl AnswerBuffer {
    /// A buffer of `answer_length` empty slots, the cursor on the first.
    pub fn new(answer_length: usize) -> (buffer: AnswerBuffer)
        ensures
            buffer@ == AnswerBufferView::fresh(answer_length as nat),
            buffer@.valid(),
    {
        let mut slots: Vec<char> = Vec::new();
        let mut k: usize = 0;
        while k < answer_length
            invariant
                k <= answer_length,
                slots@ == Seq::new(k as nat, |n: int| PLACEHOLDER),
            decreases answer_length - k,
        {
            slots.push(PLACEHOLDER);
            k = k + 1;
        }
        AnswerBuffer { cursor: 0, slots }
    }

    /// The number of slots.
    pub fn answer_length(&self) -> (length: usize)
        ensures
            length == self@.answer_length(),
    {
        self.slots.len()
    }

    /// The slot the next digit goes to.
    pub fn cursor(&self) -> (cursor: usize)
        ensures
            cursor == self@.cursor,
    {
        self.cursor
    }

    /// What slot `position` shows, if there is such a slot.
    pub fn slot(&self, position: usize) -> (shown: Option<char>)
        ensures
            shown == (if position < self@.slots.len() {
                Some(self@.slots[position as int])
            } else {
                None
            }),
    {
        if position < self.slots.len() {
            Some(self.slots[position])
        } else {
            None
        }
    }

    /// What the slots show, read from the first to the last.
    pub fn text(&self) -> (text: String)
        requires
            self@.valid(),
        ensures
            text@ == self@.slots,
    {
        let mut text = String::new();
        let mut k: usize = 0;
        while k < self.slots.len()
            invariant
                self@.valid(),
                k <= self.slots@.len(),
                text@ == self.slots@.subrange(0, k as int),
            decreases self.slots@.len() - k,
        {
            text.append(slot_text(self.slots[k]));
            k = k + 1;
        }
        text
    }

    /// Whether the slots, read from the first to the last, spell `answer`
    /// exactly.
    pub fn spells(&self, answer: &String) -> (same: bool)
        ensures
            same == (self@.slots == answer@),
    {
        let wanted = answer.as_str();
        let length: usize = wanted.unicode_len();
        if length != self.slots.len() {
            return false;
        }
        let mut k: usize = 0;
        while k < length
            invariant
                wanted@ == answer@,
                length == self.slots@.len(),
                length == wanted@.len(),
                k <= length,
                forall|n: int| 0 <= n < k ==> self.slots@[n] == wanted@[n],
            decreases length - k,
        {
            if wanted.get_char(k) != self.slots[k] {
                return false;
            }
            k = k + 1;
        }
        assert(self.slots@ =~= answer@);
        true
    }

    /// Types a character. A digit lands in the slot under the cursor and
    /// moves the cursor on, from the last slot back to the first; any other
    /// character is ignored. The result tells whether the character landed.
    ///
    /// A digit needs a slot to land in.
    pub fn insert(&mut self, ch: char) -> (landed: bool)
        requires
            old(self)@.valid(),
            is_digit(ch) ==> old(self)@.answer_length() > 0,
        ensures
            landed == is_digit(ch),
            final(self)@ == (if landed {
                old(self)@.insert(ch)
            } else {
                old(self)@
            }),
            final(self)@.valid(),
    {
        if !char_is_digit(ch) {
            return false;
        }
        let length: usize = self.slots.len();
        self.slots.set(self.cursor, ch);
        if self.cursor + 1 == length {
            proof {
                lemma_mod_self_0(length as int);
            }
            self.cursor = 0;
        } else {
            proof {
                lemma_small_mod((self.cursor + 1) as nat, length as nat);
            }
            self.cursor = self.cursor + 1;
        }
        true
    }

    /// Deletes: the cursor steps back one slot, from the first round to the
    /// last, and that slot shows the placeholder again.
    ///
    /// There must be a slot to step back to.
    pub fn delete(&mut self)
        requires
            old(self)@.valid(),
            old(self)@.answer_length() > 0,
        ensures
            final(self)@ == old(self)@.delete(),
            final(self)@.valid(),
            old(self)@.cursor == 0 ==> final(self)@.cursor == old(self)@.answer_length() - 1,
            final(self)@.slots[final(self)@.cursor as int] == PLACEHOLDER,
    {
        if self.cursor == 0 {
            self.cursor = self.slots.len();
        }
        self.cursor = self.cursor - 1;
        self.slots.set(self.cursor, PLACEHOLDER);
    }

    /// Puts the cursor back on the first slot and leaves the slots alone.
    pub fn rewind(&mut self)
        requires
            old(self)@.valid(),
        ensures
            final(self)@ == old(self)@.rewound(),
            final(self)@.valid(),
    {
        self.cursor = 0;
    }
}

/// Typing into a fresh buffer fills it from the first slot on: after `digits`
/// have been typed, no more of them than there are slots, the buffer shows
/// the digits followed by placeholders, and the cursor stands behind the
/// last digit, or on the first slot again when the buffer is full.
pub proof fn lemma_typing_fills_in_order(answer_length: nat, digits: Seq<char>)
    requires
        digits.len() <= answer_length,
        answer_length > 0,
        forall|k: int| 0 <= k < digits.len() ==> is_digit(#[trigger] digits[k]),
    ensures
        AnswerBufferView::fresh(answer_length).insert_all(digits).valid(),
        AnswerBufferView::fresh(answer_length).insert_all(digits).slots == digits + Seq::new(
            (answer_length - digits.len()) as nat,
            |k: int| PLACEHOLDER,
        ),
        AnswerBufferView::fresh(answer_length).insert_all(digits).cursor == digits.len()
            % answer_length,
    decreases digits.len(),
{
    let fresh = AnswerBufferView::fresh(answer_length);
    if digits.len() == 0 {
        assert(fresh.insert_all(digits).slots =~= digits + Seq::new(
            answer_length,
            |k: int| PLACEHOLDER,
        ));
        lemma_small_mod(0, answer_length);
    } else {
        let earlier = digits.drop_last();
        lemma_typing_fills_in_order(answer_length, earlier);
        let before = fresh.insert_all(earlier);
        lemma_small_mod(earlier.len(), answer_length);
        if digits.len() == answer_length {
            lemma_mod_self_0(answer_length as int);
        } else {
            lemma_small_mod(digits.len(), answer_length);
        }
        assert(before.insert(digits.last()).slots =~= digits + Seq::new(
            (answer_length - digits.len()) as nat,
            |k: int| PLACEHOLDER,
        ));
    }
}

/// Typing as many digits as a fresh buffer has slots leaves the buffer
/// spelling exactly those digits, with the cursor on the first slot again.
pub proof fn lemma_round_trip(digits: Seq<char>)
    requires
        forall|k: int| 0 <= k < digits.len() ==> is_digit(#[trigger] digits[k]),
    ensures
        AnswerBufferView::fresh(digits.len()).insert_all(digits).slots == digits,
        AnswerBufferView::fresh(digits.len()).insert_all(digits).cursor == 0,
        AnswerBufferView::fresh(digits.len()).insert_all(digits).valid(),
{
    if digits.len() > 0 {
        lemma_typing_fills_in_order(digits.len(), digits);
        lemma_mod_self_0(digits.len() as int);
    }
}

/// Typing over a full row overwrites it: a digit typed at the cursor
/// replaces what the slot showed and changes no other slot.
pub proof fn lemma_insert_overwrites(buffer: AnswerBufferView, digit: char)
    requires
        buffer.valid(),
        buffer.answer_length() > 0,
        is_digit(digit),
    ensures
        buffer.insert(digit).valid(),
        buffer.insert(digit).answer_length() == buffer.answer_length(),
        buffer.insert(digit).slots[buffer.cursor as int] == digit,
        forall|k: int|
            0 <= k < buffer.slots.len() && k != buffer.cursor ==> buffer.insert(digit).slots[k]
                == buffer.slots[k],
{
    if buffer.cursor + 1 == buffer.slots.len() {
        lemma_mod_self_0(buffer.slots.len() as int);
    } else {
        lemma_small_mod(buffer.cursor + 1, buffer.slots.len());
    }
}

/// Deleting at the first slot goes round to the last: the cursor lands on
/// the last slot, that slot is emptied, and the others stay.
pub proof fn lemma_delete_wraps(buffer: AnswerBufferView)
    requires
        buffer.valid(),
        buffer.answer_length() > 0,
        buffer.cursor == 0,
    ensures
        buffer.delete().valid(),
        buffer.delete().cursor == buffer.answer_length() - 1,
        buffer.delete().slots[buffer.answer_length() - 1] == PLACEHOLDER,
        forall|k: int|
            0 <= k < buffer.answer_length() - 1 ==> buffer.delete().slots[k] == buffer.slots[k],
{
}

} // verus!
