//! Conway's Game of Life on a fixed-size toroidal grid.
//!
//! The library owns a flat, row-major cell array together with its
//! dimensions, advances it one generation per call under the classic
//! four-rule table with toroidal (wraparound) neighbor counting, and
//! exposes the grid both as glyph text and as a read-only view of the
//! raw cell buffer for zero-copy rendering by a host.

pub mod cell;
pub mod model;
pub mod universe;

pub use cell::Cell;
pub use universe::Universe;
pub use universe::{GRID_HEIGHT, GRID_WIDTH};
