//! The plain kinematic record of an entity, as the server-side world state
//! would carry it: position and velocity, without animation state.

use vstd::prelude::*;

verus! {

/// Position in millipixels and velocity in pixels per second.
#[derive(Clone, Copy, Debug, PartialEq, Eq, Structural)]
pub struct Model {
    pub x: i64,
    pub y: i64,
    pub vx: i64,
    pub vy: i64,
}

impl Model {
    pub fn new() -> (r: Self)
        ensures
            r == (Model { x: 0i64, y: 0i64, vx: 0i64, vy: 0i64 }),
    {
        Model { x: 0, y: 0, vx: 0, vy: 0 }
    }
}

} // verus!
