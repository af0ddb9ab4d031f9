//! A grid-based Snake game: movement, collision and scoring rules, proved with Verus.
use vstd::prelude::*;

pub mod grid;
pub mod snake;
pub mod food;
pub mod session;
pub mod render;

verus! {

} // verus!
