//! A two-state cellular automaton on a fixed-size grid whose edges wrap
//! around: every cell has eight neighbours, and one tick replaces the whole
//! grid by its next generation.

pub mod cell;
pub mod grid;
pub mod laws;
pub mod random;
pub mod universe;
pub mod window;

pub use cell::Cell;
pub use grid::Generation;
pub use universe::{SizeMismatch, Universe};
