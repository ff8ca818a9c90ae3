//! The integer core of a tile-map raycaster: the wall map and its cell
//! queries, gamepad decoding, where a grid-line sweep stops, how a move is
//! resolved against the walls, and the line each screen column draws.
use vstd::prelude::*;

pub mod frame;
pub mod input;
pub mod motion;
pub mod sweep;
pub mod world;

verus! {

} // verus!
