//! The rules of a tile-based puzzle platformer: how the player moves and
//! jumps, which animation plays, and how riddle doors gate the levels.
//!
//! Everything here works on plain values. The game around it feeds in what
//! the physics engine, the level loader and the keyboard report each tick,
//! and shows what these rules decide.
//!
//! * [`contact`] tells ground from walls and ceilings in the contacts of the
//!   player's body.
//! * [`movement`] turns the keys held and the contacts into the body's
//!   velocity.
//! * [`timer`] and [`animation`] pick the player's animation and its frame.
//! * [`fields`] reads the typed fields that the level gives its entities.
//! * [`riddle`] holds what a door knows about its riddle, and the record of
//!   the riddles answered in a session.
//! * [`answer`] is the row of slots into which an answer is typed.
//! * [`state`] names the three modes of the game, and [`machine`] moves the
//!   game between them: exploring, solving and loading.
//! * [`tiles`] and [`text`] set up the tiles, signs and text zones of a
//!   level.
//! * [`hashed`] holds the engine's hash collections that the others use;
//!   it is the one place where this library calls into the engine.

pub mod hashed;
pub mod contact;
pub mod movement;
pub mod timer;
pub mod animation;
pub mod fields;
pub mod answer;
pub mod state;
pub mod riddle;
pub mod machine;
pub mod tiles;
pub mod text;
