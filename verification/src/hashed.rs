//! The engine's hash collections, as far as this library fills and reads them.
//!
//! `bevy::utils::HashSet` and `bevy::utils::HashMap` are hashbrown's tables
//! with the engine's hasher. Their code is not verified here. Each
//! collection is held behind a handle; a specification function names what
//! the handle holds; and every function in this file makes one call into
//! hashbrown and states, without proof, what that call returns and what it
//! does to the contents. Everything else in the library is proved from these
//! statements.

use vstd::prelude::*;

verus! {

/// A `bevy::utils::HashSet<String>`.
#[verifier::external_body]
pub struct StringSet {
    inner: bevy::utils::HashSet<String>,
}

/// The strings a [`StringSet`] holds, each by its characters.
pub uninterp spec fn string_set_contents(set: StringSet) -> Set<Seq<char>>;

/// Calls `HashSet::default`. Taken on trust: the new set holds nothing.
#[verifier::external_body]
pub(crate) fn string_set_new() -> (set: StringSet)
    ensures
        string_set_contents(set) == Set::<Seq<char>>::empty(),
{
    StringSet { inner: bevy::utils::HashSet::default() }
}

/// Calls `HashSet::contains`. Taken on trust: the result tells whether the
/// string is in the set.
#[verifier::external_body]
pub(crate) fn string_set_contains(set: &StringSet, value: &String) -> (found: bool)
    ensures
        found == string_set_contents(*set).contains(value@),
{
    set.inner.contains(value)
}

/// Calls `HashSet::insert`. Taken on trust: afterwards the set holds the
/// string besides all it held before, and the result is `true` exactly if
/// the string was not in the set before.
#[verifier::external_body]
pub(crate) fn string_set_insert(set: &mut StringSet, value: String) -> (fresh: bool)
    ensures
        string_set_contents(*final(set)) == string_set_contents(*old(set)).insert(value@),
        fresh == !string_set_contents(*old(set)).contains(value@),
{
    set.inner.insert(value)
}

/// A `bevy::utils::HashMap<String, Option<String>>`.
#[verifier::external_body]
pub struct TextMap {
    inner: bevy::utils::HashMap<String, Option<String>>,
}

/// An optional string by its characters.
pub open spec fn entry_text(entry: Option<String>) -> Option<Seq<char>> {
    match entry {
        Some(text) => Some(text@),
        None => None,
    }
}

/// The entries a [`TextMap`] holds, key and value by their characters.
pub uninterp spec fn text_map_contents(map: TextMap) -> Map<Seq<char>, Option<Seq<char>>>;

/// Calls `HashMap::default`. Taken on trust: the new map has no entries.
#[verifier::external_body]
pub(crate) fn text_map_new() -> (table: TextMap)
    ensures
        text_map_contents(table) == (Map::<Seq<char>, Option<Seq<char>>>::empty()),
{
    TextMap { inner: bevy::utils::HashMap::default() }
}

/// Calls `HashMap::insert` and drops what it returns. Taken on trust:
/// afterwards the key maps to the value, whether or not the key was present
/// before, and every other entry is as it was.
#[verifier::external_body]
pub(crate) fn text_map_insert(map: &mut TextMap, key: String, value: Option<String>)
    ensures
        text_map_contents(*final(map)) == text_map_contents(*old(map)).insert(
            key@,
            entry_text(value),
        ),
{
    map.inner.insert(key, value);
}

/// Calls `HashMap::get`. Taken on trust: the result is the value stored
/// under the key, and `None` exactly if the map has no such key.
#[verifier::external_body]
pub(crate) fn text_map_get<'a>(map: &'a TextMap, key: &str) -> (value: Option<&'a Option<String>>)
    ensures
        value is Some == text_map_contents(*map).contains_key(key@),
        value matches Some(entry) ==> entry_text(*entry) == text_map_contents(*map)[key@],
{
    map.inner.get(key)
}

/// A `bevy::utils::HashMap<u8, Vec<usize>>`.
#[verifier::external_body]
pub struct FrameMap {
    inner: bevy::utils::HashMap<u8, Vec<usize>>,
}

/// The entries a [`FrameMap`] holds.
pub uninterp spec fn frame_map_contents(map: FrameMap) -> Map<u8, Seq<usize>>;

/// Calls `HashMap::default`. Taken on trust: the new map has no entries.
#[verifier::external_body]
pub(crate) fn frame_map_new() -> (table: FrameMap)
    ensures
        frame_map_contents(table) == (Map::<u8, Seq<usize>>::empty()),
{
    FrameMap { inner: bevy::utils::HashMap::default() }
}

/// Calls `HashMap::insert` and drops what it returns. Taken on trust:
/// afterwards the key maps to the frames, whether or not the key was
/// present before, and every other entry is as it was.
#[verifier::external_body]
pub(crate) fn frame_map_insert(map: &mut FrameMap, key: u8, frames: Vec<usize>)
    ensures
        frame_map_contents(*final(map)) == frame_map_contents(*old(map)).insert(key, frames@),
{
    map.inner.insert(key, frames);
}

/// Calls `HashMap::get`. Taken on trust: the result is the frames stored
/// under the key, and `None` exactly if the map has no such key.
#[verifier::external_body]
pub(crate) fn frame_map_get<'a>(map: &'a FrameMap, key: u8) -> (frames: Option<&'a Vec<usize>>)
    ensures
        frames is Some == frame_map_contents(*map).contains_key(key),
        frames matches Some(found) ==> found@ == frame_map_contents(*map)[key],
{
    map.inner.get(&key)
}

} // verus!
