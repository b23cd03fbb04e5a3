//! The modes of the game and of the pause menu.

use vstd::prelude::*;

verus! {

/// The mode the game is in.
#[derive(Clone, Copy, Debug, PartialEq, Eq, Hash, Structural)]
pub enum GameModeState {
    LoadingSharedAssets,
    LoadingDungeon,
    InDungeon,
    LoadingBattle,
    InBattle,
    ExitingBattle,
    Paused,
}

impl GameModeState {
    /// Whether the game can be paused from this mode: only while the dungeon
    /// is explored.
    pub fn can_pause(&self) -> (allowed: bool)
        ensures
            allowed == (*self == GameModeState::InDungeon),
    {
        match self {
            GameModeState::InDungeon => true,
            _ => false,
        }
    }
}

impl Default for GameModeState {
    /// The game starts by loading the shared assets.
    fn default() -> (state: Self)
        ensures
            state == GameModeState::LoadingSharedAssets,
    {
        GameModeState::LoadingSharedAssets
    }
}

/// What the pause menu is doing.
#[derive(Clone, Copy, Debug, PartialEq, Eq, Hash, Structural)]
pub enum PauseMenuState {
    Stationary,
    RotatingCard,
    InOptionsMenu,
}

impl Default for PauseMenuState {
    /// The menu opens at rest.
    fn default() -> (state: Self)
        ensures
            state == PauseMenuState::Stationary,
    {
        PauseMenuState::Stationary
    }
}

} // verus!
