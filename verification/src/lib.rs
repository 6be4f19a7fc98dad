//! Four-neighbour autotile bitmasks over a sparse boolean grid.
//!
//! A [`NeighborGrid`] maps unsigned 2D coordinates to flags. The [`BitMask`]
//! operations look up single neighbours and combine the four orthogonal
//! ones into a 4-bit mask that a tile renderer can use to pick a sprite.

pub mod bitmask;
pub mod coord;
pub mod grid;
pub mod laws;

pub use bitmask::{BitMask, GridError};
pub use coord::{Coord, Offset};
pub use grid::NeighborGrid;
