//! The grid simulation of a tile-based sokoban puzzle: the push rule, the player's
//! two-phase table-driven moves, per-entity undo history, volatile collisions, goals and a
//! time-ordered event scheduler, each with its contract proved.
use vstd::prelude::*;

pub mod animation;
pub mod goal;
pub mod gravestone;
pub mod grid;
pub mod history;
pub mod level;
pub mod movement_table;
pub mod scheduler;
pub mod sokoban;
pub mod timer;
pub mod volatile;
pub mod wind;
pub mod willo;

verus! {

/// The phases the game runs through.
#[derive(Clone, Copy, Debug, PartialEq, Eq, Hash, Structural)]
pub enum GameState {
    /// Assets are being prepared.
    AssetLoading,
    /// A level is being left or entered.
    LevelTransition,
    /// A level is being played.
    Graveyard,
    /// The level select menu is shown.
    LevelSelect,
}

} // verus!
