//! Grid movement and tile-preset logic of a first-person dungeon crawler.
//!
//! The crate holds the engine-independent rules: direction algebra, grid
//! positions, the derivation of wall presets from an occupancy grid, the
//! per-cell tile lookup and the player's movement state machine.

pub mod direction;
pub mod position;
pub mod preset;
pub mod tile;
pub mod lookup;
pub mod items;
pub mod cell;
pub mod grid;
pub mod mode_state;
pub mod player;
pub mod laws;
pub mod pause;
