//! A verified model of a small orbital scene: a sun, a configurable number of
//! planets each carrying a few moons, a fixed-rate orbit update, and a picker
//! that selects the body nearest to a clicked point.
//!
//! Lengths are held in integer scene units (420 units to one scene length),
//! angles in micro-turns (one full revolution is 1_000_000 micro-turns), and
//! times and angular speeds in milli-units, so that every quantity the logic
//! reasons about is exact.

pub mod geom;
pub mod orbit;
pub mod picker;
mod rng;
pub mod scene;

use vstd::prelude::*;

verus! {

/// Number of integer scene units in one scene length unit.
pub const UNITS_PER_LENGTH: u64 = 420;

} // verus!
