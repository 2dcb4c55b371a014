//! The three modes of the game.

use vstd::prelude::*;

verus! {

/// What the game is doing: the player walks the map, works on a riddle, or
/// waits for a level to load.
#[derive(Clone, Copy, Debug, PartialEq, Eq, Hash, Structural)]
pub enum GameState {
    MapExploring,
    RiddleSolving,
    LevelLoading,
}

impl GameState {
    /// The mode a session starts in: a level has to load before anything
    /// can be explored.
    pub fn initial() -> (state: GameState)
        ensures
            state is LevelLoading,
    {
        GameState::LevelLoading
    }
}

} // verus!
