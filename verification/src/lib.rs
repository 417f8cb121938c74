//! Core of a tile puzzle level: the grid of open and blocked tiles, the
//! choice of a tile's visual variant from its neighbours, the segments of
//! variable-width platforms, the fixed hazards, and the movement rules of the
//! single actor that walks the grid.
//!
//! Everything here is plain data and pure decisions. Drawing, input devices
//! and animation live with the caller, which hands in discrete events and
//! reads back positions and variant indices.

pub mod autotile;
pub mod error;
pub mod grid;
pub mod hazard;
pub mod platform;
pub mod player;
pub mod puzzle;
