//! Per-species and per-channel simulation parameters.
//!
//! All fields are scaled integers: `_milli` fields hold thousandths of the
//! unit named in their comment, `_raw` fields hold 15-bit fixed-point
//! channel values, and times are in microseconds.  Each struct carries a
//! well-formedness predicate bounding its fields so that every kernel's
//! arithmetic is proved free of overflow.

use vstd::prelude::*;

verus! {

use crate::NUM_TRAIL_STATS;
use crate::modes::ColorModeEncoded;
use crate::pixel::PIXEL_MAX;

/// Largest time step a tick may use: ten seconds.
pub const MAX_TIME_STEP_US: u64 = 10_000_000;

/// Largest rate accepted for speeds and rates given per second in
/// thousandths: ten thousand units per second.
pub const MAX_RATE_MILLI: u32 = 10_000_000;

/// An RGBA color, each component in thousandths.
#[derive(Copy, Clone, PartialEq, Eq, Structural, Debug)]
pub struct Color {
    pub r: i32,
    pub g: i32,
    pub b: i32,
    pub a: i32,
}

impl Color {
    /// Components stay within a thousand wholes either way.
    pub open spec fn wf(self) -> bool {
        &&& -1_000_000 <= self.r <= 1_000_000
        &&& -1_000_000 <= self.g <= 1_000_000
        &&& -1_000_000 <= self.b <= 1_000_000
        &&& -1_000_000 <= self.a <= 1_000_000
    }

    pub fn new(r: i32, g: i32, b: i32, a: i32) -> (c: Color)
        ensures
            c == (Color { r, g, b, a }),
    {
        Color { r, g, b, a }
    }
}

/// How one species interacts with one trail channel.
#[derive(Copy, Clone, PartialEq, Eq, Structural, Debug)]
pub struct TrailInteraction {
    /// Sensing weight of the channel, in thousandths.
    pub attraction_milli: i32,
    /// Deposit per visited cell, as a raw channel value.
    pub addition_raw: u32,
    /// Nonzero when crossing a strong cell converts the agent.
    pub conversion_enabled: u32,
    /// Channel strength above which conversion fires, as a raw value.
    pub conversion_threshold_raw: u32,
    /// Species the agent becomes on conversion.
    pub conversion: u32,
}

impl TrailInteraction {
    pub open spec fn wf(self) -> bool {
        &&& -1_000_000 <= self.attraction_milli <= 1_000_000
        &&& self.addition_raw <= PIXEL_MAX
        &&& self.conversion_threshold_raw <= 0xFFFF
    }
}

/// The behavior of one species.
#[derive(Copy, Clone, PartialEq, Debug)]
pub struct AgentStats {
    /// Pixels travelled per second, in milli-pixels.
    pub velocity_milli: u32,
    /// Steering rate, in angle units per second (thousandths of a half
    /// turn per second).
    pub turn_speed_milli: u32,
    /// Steering rate while avoiding saturated trails, same unit.
    pub turn_speed_avoidance_milli: u32,
    /// Sensor sum, in thousandths, above which a sensor saturates.
    pub avoidance_threshold_milli: u32,
    /// Angle between the side sensors and the forward sensor, in
    /// millidegrees.
    pub sensor_angle_spacing_milli: u32,
    /// Distance of the sensors from the agent, in milli-pixels.
    pub sensor_offset_milli: u32,
    /// Lifetime of the species in microseconds; values of ten
    /// milliseconds or less disable the countdown.
    pub timeout_us: u64,
    /// Species an agent becomes when its countdown runs out.
    pub timeout_conversion: u32,
    /// One interaction per trail channel.
    pub interaction_channels: [TrailInteraction; NUM_TRAIL_STATS],
}

impl AgentStats {
    pub open spec fn wf(self) -> bool {
        &&& self.velocity_milli <= MAX_RATE_MILLI
        &&& self.turn_speed_milli <= MAX_RATE_MILLI
        &&& self.turn_speed_avoidance_milli <= MAX_RATE_MILLI
        &&& self.avoidance_threshold_milli <= 1_000_000
        &&& self.sensor_angle_spacing_milli <= 360_000
        &&& self.sensor_offset_milli <= MAX_RATE_MILLI
        &&& self.timeout_us <= 0x1_0000_0000_0000
        &&& forall|i: int|
            0 <= i < NUM_TRAIL_STATS ==> #[trigger] self.interaction_channels[i].wf()
    }
}

/// The evolution of one trail channel.
#[derive(Copy, Clone, PartialEq, Eq, Structural, Debug)]
pub struct TrailStats {
    /// Fraction of full strength lost per second, in thousandths.
    pub evaporation_speed_milli: u32,
    /// Fraction of the way to the blurred value gained per second, in
    /// thousandths.
    pub diffusion_speed_milli: u32,
    /// How the channel contributes to the rendered frame.
    pub color_mode: ColorModeEncoded,
    /// The channel's display color.
    pub color: Color,
}

impl TrailStats {
    pub open spec fn wf(self) -> bool {
        &&& self.evaporation_speed_milli <= MAX_RATE_MILLI
        &&& self.diffusion_speed_milli <= MAX_RATE_MILLI
        &&& self.color.wf()
    }
}

} // verus!
