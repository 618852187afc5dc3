//! A first-person character controller. Input events turn the view and set the movement
//! keys; each simulation tick turns these into a camera rotation and a planar velocity.
//! Angles are in millidegrees, lengths in millionths of a world unit, time in microseconds.
use vstd::prelude::*;

pub mod geometry;
pub mod player;

verus! {

} // verus!
