//! Deep-zoom view state for exploring the Mandelbrot set: a high-precision
//! centre, cursor-anchored zoom, drag panning, the reference orbit that a
//! perturbation renderer reads, and the scalars published to it each tick.

use vstd::prelude::*;

pub mod decimal;
pub mod view;
pub mod input;
pub mod orbit;
pub mod frame;

verus! {

} // verus!
