//! Core of a multi-species "slime mold" agent simulation.
//!
//! Many thousands of oriented point agents deposit chemical-like trails into
//! the channels of a 2-D fixed-point trail map; each agent senses the trails
//! ahead of it, steers toward or away from them, steps forward, and may be
//! converted between species by the channels it crosses or by a per-species
//! lifetime.  Every tick the map is simultaneously blurred (diffusion) and
//! attenuated (evaporation), painted by a mouse-driven brush, and composited
//! into a colored frame.
//!
//! All quantities are held as scaled integers so that every kernel is exact
//! and verifiable: trail channel values are 15-bit fixed point (`0x7FFF` is
//! full strength), general fractions and rates are in thousandths ("milli"),
//! positions are in milli-pixels, angles are in milli-half-turns (a full turn
//! is 2000 units), and times are in microseconds.  The host shell that owns a
//! window and a GPU queue converts at its edges.

pub mod agent;
pub mod brush;
pub mod diffuse;
pub mod hashing;
pub mod intmath;
pub mod modes;
pub mod pipeline;
pub mod pixel;
pub mod render;
pub mod spawn;
pub mod stats;
pub mod trail_map;
pub mod trig;
pub mod wire;

use vstd::prelude::*;

verus! {

/// Species an agent can belong to.
pub const NUM_AGENT_TYPES: usize = 4;

/// Channels the trail map carries.
pub const NUM_TRAIL_STATS: usize = 4;

/// One whole, in the scale used for fractions, rates, positions and colors.
pub const MILLI: u32 = 1000;

} // verus!
