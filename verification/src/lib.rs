//! Spatial occupancy tracking for a fixed-size two-dimensional grid.
//!
//! The crate keeps, for every cell of the grid, which entity (if any)
//! occupies it, together with the reverse index from entity to cell, and
//! offers placement, removal and relative-move operations that keep the two
//! structures consistent with one another.

pub mod board;
pub mod grid;
