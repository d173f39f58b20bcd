//! The tile-world core of a small puzzle game: directions and wall shapes,
//! tiles and their step-on behaviour, levels, and the player/world state
//! machine that the user interface drives.

pub mod coord;
pub mod direction;
pub mod game;
pub mod level;
pub mod tile;
mod text;
