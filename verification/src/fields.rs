//! The typed fields that the level editor attaches to an entity, and the
//! table by which the rules look them up.

use vstd::prelude::*;
use crate::hashed::{
    entry_text,
    text_map_contents,
    text_map_get,
    text_map_insert,
    text_map_new,
    TextMap,
};

verus! {

/// The value of a level field, as far as the rules read it.
#[derive(Debug)]
pub enum FieldValue {
    /// A string field; `None` when the editor left it empty.
    Text(Option<String>),
    /// A number field, written out in decimal; `None` when left empty.
    Number(Option<String>),
    /// A field of any other type.
    Other,
}

/// One field of a level entity.
#[derive(Debug)]
pub struct LevelField {
    pub identifier: String,
    pub value: FieldValue,
}

impl FieldValue {
    /// The text a field holds, if it holds any. A string field holds its
    /// string and a number field its decimal form, if `numbers` are wanted.
    /// A field that the editor left empty holds no text, nor does a field
    /// of another type, nor a number field where no numbers are wanted.
    pub open spec fn text(&self, numbers: bool) -> Option<Seq<char>> {
        match self {
            FieldValue::Text(Some(text)) => Some(text@),
            FieldValue::Number(Some(digits)) => if numbers {
                Some(digits@)
            } else {
                None
            },
            _ => None,
        }
    }

    /// The text the field holds, if it holds any.
    pub fn to_text(&self, numbers: bool) -> (text: Option<String>)
        ensures
            entry_text(text) == self.text(numbers),
    {
        match self {
            FieldValue::Text(Some(text)) => Some(text.clone()),
            FieldValue::Number(Some(digits)) => {
                if numbers {
                    Some(digits.clone())
                } else {
                    None
                }
            },
            _ => None,
        }
    }
}

/// The text of an entry, where an entry without text reads as the empty
/// text.
pub open spec fn text_or_empty(entry: Option<Seq<char>>) -> Seq<char> {
    match entry {
        Some(text) => text,
        None => Seq::empty(),
    }
}

/// `table` has a field called `name`, and that field holds text.
pub open spec fn holds_text(table: Map<Seq<char>, Option<Seq<char>>>, name: Seq<char>) -> bool {
    table.contains_key(name) && table[name] is Some
}

/// The table that `fields` make: each identifier with the text that its
/// field holds, if it holds any. Where an identifier occurs twice, the later
/// field counts.
pub open spec fn field_entries(fields: Seq<LevelField>, numbers: bool) -> Map<Seq<char>, Option<Seq<char>>>
    decreases fields.len(),
{
    if fields.len() == 0 {
        Map::empty()
    } else {
        field_entries(fields.drop_last(), numbers).insert(
            fields.last().identifier@,
            fields.last().value.text(numbers),
        )
    }
}

/// `k` is the last of `fields` that is called `name`.
pub open spec fn is_last_named(fields: Seq<LevelField>, name: Seq<char>, k: int) -> bool {
    &&& 0 <= k < fields.len()
    &&& fields[k].identifier@ == name
    &&& forall|n: int| k < n < fields.len() ==> (#[trigger] fields[n]).identifier@ != name
}

/// What the table of `fields` says about `name`: it has an entry exactly if
/// some field is called so; then one of those fields is the last of that
/// name, and the entry is what that field holds.
pub proof fn lemma_later_field_counts(fields: Seq<LevelField>, numbers: bool, name: Seq<char>)
    ensures
        field_entries(fields, numbers).contains_key(name) <==> exists|k: int|
            0 <= k < fields.len() && (#[trigger] fields[k]).identifier@ == name,
        field_entries(fields, numbers).contains_key(name) <==> exists|k: int| #[trigger]
            is_last_named(fields, name, k),
        forall|k: int|
            is_last_named(fields, name, k) ==> field_entries(fields, numbers)[name]
                == fields[k].value.text(numbers),
    decreases fields.len(),
{
    if fields.len() > 0 {
        let earlier = fields.drop_last();
        lemma_later_field_counts(earlier, numbers, name);
        if fields.last().identifier@ == name {
            assert(fields[fields.len() - 1].identifier@ == name);
            assert(is_last_named(fields, name, fields.len() - 1));
        } else {
            if field_entries(fields, numbers).contains_key(name) {
                let k = choose|k: int| #[trigger] is_last_named(earlier, name, k);
                assert(fields[k].identifier@ == name);
                assert(is_last_named(fields, name, k)) by {
                    assert forall|n: int| k < n < fields.len() implies (
                    #[trigger] fields[n]).identifier@ != name by {
                        if n < earlier.len() {
                            assert(earlier[n].identifier@ != name);
                        }
                    }
                }
            }
            if exists|k: int| 0 <= k < fields.len() && (#[trigger] fields[k]).identifier@ == name {
                let k = choose|k: int|
                    0 <= k < fields.len() && (#[trigger] fields[k]).identifier@ == name;
                assert(earlier[k].identifier@ == name);
            }
            assert forall|k: int| is_last_named(fields, name, k) implies is_last_named(
                earlier,
                name,
                k,
            ) by {
                assert forall|n: int| k < n < earlier.len() implies (
                #[trigger] earlier[n]).identifier@ != name by {
                    assert(fields[n].identifier@ != name);
                }
            }
        }
    }
}

/// `k` is the first of `fields` that is called `name`.
pub open spec fn is_first_named(fields: Seq<LevelField>, name: Seq<char>, k: int) -> bool {
    &&& 0 <= k < fields.len()
    &&& fields[k].identifier@ == name
    &&& forall|n: int| 0 <= n < k ==> (#[trigger] fields[n]).identifier@ != name
}

/// Finds the first field called `name`, whatever its type. The caller reads
/// the value there: this is how a field is read that holds neither text nor
/// a number.
pub fn first_field_named(fields: &Vec<LevelField>, name: &str) -> (found: Option<usize>)
    ensures
        match found {
            Some(k) => is_first_named(fields@, name@, k as int),
            None => forall|n: int| 0 <= n < fields@.len() ==> (#[trigger] fields@[n]).identifier@ != name@,
        },
{
    let wanted = name.to_owned();
    let mut k: usize = 0;
    while k < fields.len()
        invariant
            wanted@ == name@,
            k <= fields@.len(),
            forall|n: int| 0 <= n < k ==> (#[trigger] fields@[n]).identifier@ != name@,
        decreases fields@.len() - k,
    {
        if fields[k].identifier == wanted {
            return Some(k);
        }
        k = k + 1;
    }
    None
}

/// The fields of one level entity, by identifier.
pub struct FieldTable {
    entries: TextMap,
}

impl View for FieldTable {
    type V = Map<Seq<char>, Option<Seq<char>>>;

    closed spec fn view(&self) -> Map<Seq<char>, Option<Seq<char>>> {
        text_map_contents(self.entries)
    }
}

impl FieldTable {
    /// Reads the fields of an entity into a table. Number fields are read
    /// as their decimal form if `numbers` is set, and as holding no text
    /// otherwise.
    pub fn collect(fields: &Vec<LevelField>, numbers: bool) -> (table: FieldTable)
        ensures
            table@ == field_entries(fields@, numbers),
    {
        let mut entries = text_map_new();
        let mut k: usize = 0;
        while k < fields.len()
            invariant
                k <= fields@.len(),
                text_map_contents(entries) == field_entries(fields@.subrange(0, k as int), numbers),
            decreases fields@.len() - k,
        {
            let field = &fields[k];
            proof {
                let upto = fields@.subrange(0, k + 1);
                assert(upto.drop_last() =~= fields@.subrange(0, k as int));
                assert(upto.last() == fields@[k as int]);
            }
            text_map_insert(&mut entries, field.identifier.clone(), field.value.to_text(numbers));
            k = k + 1;
        }
        assert(fields@.subrange(0, k as int) =~= fields@);
        FieldTable { entries }
    }

    /// What the field called `name` holds, if the entity has such a field:
    /// its text, or `None` where it holds no text.
    pub fn get(&self, name: &str) -> (entry: Option<&Option<String>>)
        ensures
            entry is Some == self@.contains_key(name@),
            entry matches Some(found) ==> entry_text(*found) == self@[name@],
    {
        text_map_get(&self.entries, name)
    }

    /// The text of the field called `name`, if the entity has such a field
    /// and it holds text.
    pub fn text(&self, name: &str) -> (text: Option<&String>)
        ensures
            text is Some == holds_text(self@, name@),
            text matches Some(found) ==> Some(found@) == self@[name@],
    {
        match self.get(name) {
            Some(Some(found)) => Some(found),
            _ => None,
        }
    }

    /// The text of the field called `name`, if the entity has such a field;
    /// the empty text where the field holds none.
    pub fn text_or_empty(&self, name: &str) -> (text: Option<String>)
        ensures
            text is Some == self@.contains_key(name@),
            text matches Some(found) ==> found@ == text_or_empty(self@[name@]),
    {
        match self.get(name) {
            Some(Some(found)) => Some(found.clone()),
            Some(None) => Some(String::new()),
            None => None,
        }
    }
}

/// A level entity that lacks a field it cannot do without.
#[derive(Clone, Copy, Debug, PartialEq, Eq, Structural)]
pub enum ConfigError {
    /// A door without a `question` field that holds a string.
    MissingQuestion,
    /// A door without an `answer` field that holds a string.
    MissingAnswer,
    /// A door without a `next_level` field that holds a string.
    MissingNextLevel,
    /// A text zone or a sign without a `text` field.
    MissingText,
    /// A sign without a `font_size` field.
    MissingFontSize,
}

} // verus!
