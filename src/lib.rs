//! Per-frame quad geometry, surface configuration and the frame recovery
//! rules of a small quad renderer, together with the game state it draws.

use vstd::prelude::*;

pub mod engine;
pub mod game;
pub mod geometry;
pub mod input;
pub mod render;
pub mod surface;

verus! {

} // verus!
