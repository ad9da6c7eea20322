//! Conway's Game of Life on a fixed-size toroidal grid.

pub mod cell;
pub mod grid;
pub mod laws;
pub mod seed;
pub mod universe;

pub use cell::Cell;
pub use universe::Universe;
