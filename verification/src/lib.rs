//! Tile-grid world model and pixel-perfect screen layout for a small
//! exploration game: a dense grid of tiles holding plants and animals, the
//! design metrics of the playfield and their scaling to a window.

pub mod assets;
pub mod game;
pub mod grid;
pub mod info;
mod random;
pub mod world;
