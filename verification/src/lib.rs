//! Client-side runtime core of a small 2D tile-based game: input snapshots,
//! key bindings, a controller, a tile-map walkability model, a sprite-sheet
//! slicer, the walking-animation chooser state machine, the actor kinematics
//! with collision gating, and the per-tick game-state update.
//!
//! All quantities are fixed-point integers: time in milliseconds, positions
//! in millipixels, velocities in pixels per second. The windowing, rendering,
//! asset-loading and network layers live outside this crate and exchange
//! plain values with it.

pub mod actor;
pub mod controller;
pub mod game;
pub mod input;
pub mod model;
pub mod tilesheet;
