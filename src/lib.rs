use vstd::prelude::*;

pub mod assets;
pub mod fps;
pub mod params;
pub mod run_state;
pub mod smoothing;
pub mod texture;
pub mod variant;
pub mod wake;

verus! {

/// Number of spectrum samples in one frame.
pub const BARS: usize = 256;

} // verus!
