//! The bit-exact records shared with the device.
//!
//! Push constants and storage buffers must match between host and device
//! down to the byte, so each record here is a plain sequence of 32-bit
//! words marshalled little-endian.  Fields that the device reads as
//! floats are carried as their raw bit patterns; the host shell converts
//! at its edge, and the marshalling itself never reinterprets a word.

use vstd::prelude::*;

verus! {

use crate::NUM_TRAIL_STATS;
use crate::modes::{ClickModeEncoded, ColorModeEncoded};

/// Byte `k` of the little-endian encoding of `v`.
pub open spec fn le_byte(v: u32, k: int) -> u8 {
    if k == 0 {
        (v & 0xFF) as u8
    } else if k == 1 {
        ((v >> 8) & 0xFF) as u8
    } else if k == 2 {
        ((v >> 16) & 0xFF) as u8
    } else {
        ((v >> 24) & 0xFF) as u8
    }
}

/// Appends the four little-endian bytes of one word.
fn push_le(bytes: &mut Vec<u8>, v: u32)
    ensures
        final(bytes)@.len() == old(bytes)@.len() + 4,
        forall|j: int| 0 <= j < old(bytes)@.len() ==> final(bytes)@[j] == old(bytes)@[j],
        forall|k: int|
            0 <= k < 4 ==> final(bytes)@[old(bytes)@.len() + k] == le_byte(v, k),
{
    proof {
        assert(v & 0xFF < 256 && (v >> 8) & 0xFF < 256 && (v >> 16) & 0xFF < 256 && (v >> 24)
            & 0xFF < 256) by (bit_vector);
    }
    bytes.push((v & 0xFF) as u8);
    bytes.push(((v >> 8) & 0xFF) as u8);
    bytes.push(((v >> 16) & 0xFF) as u8);
    bytes.push(((v >> 24) & 0xFF) as u8);
}

/// The little-endian bytes of a word sequence.
pub fn bytes_from_words(words: &Vec<u32>) -> (bytes: Vec<u8>)
    ensures
        bytes@.len() == 4 * words@.len(),
        forall|i: int, k: int|
            0 <= i < words@.len() && 0 <= k < 4 ==> bytes@[4 * i + k] == le_byte(words@[i], k),
{
    let mut bytes: Vec<u8> = Vec::new();
    let mut i: usize = 0;
    while i < words.len()
        invariant
            i <= words@.len(),
            bytes@.len() == 4 * i,
            forall|j: int, k: int|
                0 <= j < i && 0 <= k < 4 ==> bytes@[4 * j + k] == le_byte(words@[j], k),
        decreases words@.len() - i,
    {
        push_le(&mut bytes, words[i]);
        i = i + 1;
    }
    bytes
}

/// The per-frame push constants of the agent, diffuse and render passes:
/// screen size, map size, time, time step, two padding words and the
/// background color.  Times and colors are raw `f32` bit patterns.
#[derive(Copy, Clone, PartialEq, Debug)]
pub struct ShaderConstants {
    pub screen_width: u32,
    pub screen_height: u32,
    pub map_width: u32,
    pub map_height: u32,
    pub time_bits: u32,
    pub time_step_bits: u32,
    pub padding_1: u32,
    pub padding_2: u32,
    pub background_color_bits: [u32; 4],
}

impl ShaderConstants {
    /// The record as the word sequence the device sees.
    pub open spec fn wire_words(self) -> Seq<u32> {
        seq![
            self.screen_width,
            self.screen_height,
            self.map_width,
            self.map_height,
            self.time_bits,
            self.time_step_bits,
            self.padding_1,
            self.padding_2,
            self.background_color_bits[0],
            self.background_color_bits[1],
            self.background_color_bits[2],
            self.background_color_bits[3],
        ]
    }

    /// The record as its 48 little-endian push-constant bytes.
    pub fn to_bytes(&self) -> (bytes: Vec<u8>)
        ensures
            bytes@.len() == 48,
            forall|i: int, k: int|
                0 <= i < 12 && 0 <= k < 4 ==> bytes@[4 * i + k] == le_byte(
                    self.wire_words()[i],
                    k,
                ),
    {
        let mut words: Vec<u32> = Vec::new();
        words.push(self.screen_width);
        words.push(self.screen_height);
        words.push(self.map_width);
        words.push(self.map_height);
        words.push(self.time_bits);
        words.push(self.time_step_bits);
        words.push(self.padding_1);
        words.push(self.padding_2);
        words.push(self.background_color_bits[0]);
        words.push(self.background_color_bits[1]);
        words.push(self.background_color_bits[2]);
        words.push(self.background_color_bits[3]);
        proof {
            assert(words@ =~= self.wire_words());
        }
        bytes_from_words(&words)
    }
}

/// The per-frame push constants of the brush pass: screen size, map
/// size, the click mode word, the mouse-down flag, current and last
/// pointer position, the brush radius and one padding word.  Positions
/// and the radius are raw `f32` bit patterns.
#[derive(Copy, Clone, PartialEq, Debug)]
pub struct MouseConstants {
    pub screen_width: u32,
    pub screen_height: u32,
    pub map_width: u32,
    pub map_height: u32,
    pub click_mode: ClickModeEncoded,
    pub mouse_down: u32,
    pub mouse_position_bits: [u32; 2],
    pub last_mouse_position_bits: [u32; 2],
    pub brush_size_bits: u32,
    pub padding: u32,
}

impl MouseConstants {
    /// The record as the word sequence the device sees.
    pub open spec fn wire_words(self) -> Seq<u32> {
        seq![
            self.screen_width,
            self.screen_height,
            self.map_width,
            self.map_height,
            self.click_mode.0,
            self.mouse_down,
            self.mouse_position_bits[0],
            self.mouse_position_bits[1],
            self.last_mouse_position_bits[0],
            self.last_mouse_position_bits[1],
            self.brush_size_bits,
            self.padding,
        ]
    }

    /// The record as its 48 little-endian push-constant bytes.
    pub fn to_bytes(&self) -> (bytes: Vec<u8>)
        ensures
            bytes@.len() == 48,
            forall|i: int, k: int|
                0 <= i < 12 && 0 <= k < 4 ==> bytes@[4 * i + k] == le_byte(
                    self.wire_words()[i],
                    k,
                ),
    {
        let mut words: Vec<u32> = Vec::new();
        words.push(self.screen_width);
        words.push(self.screen_height);
        words.push(self.map_width);
        words.push(self.map_height);
        words.push(self.click_mode.0);
        words.push(self.mouse_down);
        words.push(self.mouse_position_bits[0]);
        words.push(self.mouse_position_bits[1]);
        words.push(self.last_mouse_position_bits[0]);
        words.push(self.last_mouse_position_bits[1]);
        words.push(self.brush_size_bits);
        words.push(self.padding);
        proof {
            assert(words@ =~= self.wire_words());
        }
        bytes_from_words(&words)
    }
}

/// One channel's stats as the storage buffer holds them: evaporation and
/// diffusion speed, one padding word, the color-mode word and the color,
/// with the speeds and color as raw `f32` bit patterns.
#[derive(Copy, Clone, PartialEq, Debug)]
pub struct TrailStatsWire {
    pub evaporation_speed_bits: u32,
    pub diffusion_speed_bits: u32,
    pub padding_1: u32,
    pub color_mode: ColorModeEncoded,
    pub color_bits: [u32; 4],
}

impl TrailStatsWire {
    /// The record as the word sequence the device sees.
    pub open spec fn wire_words(self) -> Seq<u32> {
        seq![
            self.evaporation_speed_bits,
            self.diffusion_speed_bits,
            self.padding_1,
            self.color_mode.0,
            self.color_bits[0],
            self.color_bits[1],
            self.color_bits[2],
            self.color_bits[3],
        ]
    }
}

/// The whole per-channel stats buffer: the channels' records in channel
/// order, 32 bytes each.
pub fn bytes_from_trail_stats(stats: &[TrailStatsWire; NUM_TRAIL_STATS]) -> (bytes: Vec<u8>)
    ensures
        bytes@.len() == 32 * NUM_TRAIL_STATS,
        forall|c: int, i: int, k: int|
            0 <= c < NUM_TRAIL_STATS && 0 <= i < 8 && 0 <= k < 4 ==> bytes@[32 * c + 4 * i + k]
                == le_byte(stats[c].wire_words()[i], k),
{
    let mut words: Vec<u32> = Vec::new();
    let mut c: usize = 0;
    while c < NUM_TRAIL_STATS
        invariant
            c <= NUM_TRAIL_STATS,
            words@.len() == 8 * c,
            forall|j: int, i: int|
                0 <= j < c && 0 <= i < 8 ==> words@[8 * j + i] == stats[j].wire_words()[i],
        decreases NUM_TRAIL_STATS - c,
    {
        words.push(stats[c].evaporation_speed_bits);
        words.push(stats[c].diffusion_speed_bits);
        words.push(stats[c].padding_1);
        words.push(stats[c].color_mode.0);
        words.push(stats[c].color_bits[0]);
        words.push(stats[c].color_bits[1]);
        words.push(stats[c].color_bits[2]);
        words.push(stats[c].color_bits[3]);
        c = c + 1;
    }
    let bytes = bytes_from_words(&words);
    proof {
        assert forall|c2: int, i: int, k: int|
            0 <= c2 < NUM_TRAIL_STATS && 0 <= i < 8 && 0 <= k < 4 implies bytes@[32 * c2 + 4 * i
            + k] == le_byte(stats[c2].wire_words()[i], k) by {
            assert(words@[8 * c2 + i] == stats[c2].wire_words()[i]);
            assert(bytes@[4 * (8 * c2 + i) + k] == le_byte(words@[8 * c2 + i], k));
        }
    }
    bytes
}


/// One agent as the storage buffer holds it: position, heading, species
/// and countdown, with the position, heading and countdown as raw `f32`
/// bit patterns.
#[derive(Copy, Clone, PartialEq, Debug)]
pub struct AgentWire {
    pub x_bits: u32,
    pub y_bits: u32,
    pub angle_bits: u32,
    pub agent_type: u32,
    pub countdown_bits: u32,
}

impl AgentWire {
    /// The record as the word sequence the device sees.
    pub open spec fn wire_words(self) -> Seq<u32> {
        seq![self.x_bits, self.y_bits, self.angle_bits, self.agent_type, self.countdown_bits]
    }
}

/// The whole agent buffer: the agents' records in store order, 20 bytes
/// each.
pub fn bytes_from_agents(agents: &Vec<AgentWire>) -> (bytes: Vec<u8>)
    requires
        agents@.len() <= 0x0100_0000,
    ensures
        bytes@.len() == 20 * agents@.len(),
        forall|a: int, i: int, k: int|
            0 <= a < agents@.len() && 0 <= i < 5 && 0 <= k < 4 ==> bytes@[20 * a + 4 * i + k]
                == le_byte(agents@[a].wire_words()[i], k),
{
    let mut words: Vec<u32> = Vec::new();
    let mut a: usize = 0;
    while a < agents.len()
        invariant
            agents@.len() <= 0x0100_0000,
            a <= agents@.len(),
            words@.len() == 5 * a,
            forall|j: int, i: int|
                0 <= j < a && 0 <= i < 5 ==> words@[5 * j + i] == agents@[j].wire_words()[i],
        decreases agents@.len() - a,
    {
        words.push(agents[a].x_bits);
        words.push(agents[a].y_bits);
        words.push(agents[a].angle_bits);
        words.push(agents[a].agent_type);
        words.push(agents[a].countdown_bits);
        a = a + 1;
    }
    let bytes = bytes_from_words(&words);
    proof {
        assert forall|a2: int, i: int, k: int|
            0 <= a2 < agents@.len() && 0 <= i < 5 && 0 <= k < 4 implies bytes@[20 * a2 + 4 * i
            + k] == le_byte(agents@[a2].wire_words()[i], k) by {
            assert(words@[5 * a2 + i] == agents@[a2].wire_words()[i]);
            assert(bytes@[4 * (5 * a2 + i) + k] == le_byte(words@[5 * a2 + i], k));
        }
    }
    bytes
}


/// One interaction as the stats buffer holds it: attraction, addition,
/// the enable flag, the threshold and the target species, with the
/// fractional fields as raw `f32` bit patterns.
#[derive(Copy, Clone, PartialEq, Debug)]
pub struct TrailInteractionWire {
    pub attraction_bits: u32,
    pub addition_bits: u32,
    pub conversion_enabled: u32,
    pub conversion_threshold_bits: u32,
    pub conversion: u32,
}

/// One species' stats as the storage buffer holds them: the seven scalar
/// fields, the timeout conversion, and one interaction per channel.
#[derive(Copy, Clone, PartialEq, Debug)]
pub struct AgentStatsWire {
    pub velocity_bits: u32,
    pub turn_speed_bits: u32,
    pub turn_speed_avoidance_bits: u32,
    pub avoidance_threshold_bits: u32,
    pub sensor_angle_spacing_bits: u32,
    pub sensor_offset_bits: u32,
    pub timeout_bits: u32,
    pub timeout_conversion: u32,
    pub interaction_channels: [TrailInteractionWire; NUM_TRAIL_STATS],
}

impl AgentStatsWire {
    /// The record as the word sequence the device sees: eight scalars,
    /// then five words per interaction.
    pub open spec fn wire_words(self) -> Seq<u32> {
        seq![
            self.velocity_bits,
            self.turn_speed_bits,
            self.turn_speed_avoidance_bits,
            self.avoidance_threshold_bits,
            self.sensor_angle_spacing_bits,
            self.sensor_offset_bits,
            self.timeout_bits,
            self.timeout_conversion,
            self.interaction_channels[0].attraction_bits,
            self.interaction_channels[0].addition_bits,
            self.interaction_channels[0].conversion_enabled,
            self.interaction_channels[0].conversion_threshold_bits,
            self.interaction_channels[0].conversion,
            self.interaction_channels[1].attraction_bits,
            self.interaction_channels[1].addition_bits,
            self.interaction_channels[1].conversion_enabled,
            self.interaction_channels[1].conversion_threshold_bits,
            self.interaction_channels[1].conversion,
            self.interaction_channels[2].attraction_bits,
            self.interaction_channels[2].addition_bits,
            self.interaction_channels[2].conversion_enabled,
            self.interaction_channels[2].conversion_threshold_bits,
            self.interaction_channels[2].conversion,
            self.interaction_channels[3].attraction_bits,
            self.interaction_channels[3].addition_bits,
            self.interaction_channels[3].conversion_enabled,
            self.interaction_channels[3].conversion_threshold_bits,
            self.interaction_channels[3].conversion,
        ]
    }
}

/// Appends the five words of one interaction.
fn push_interaction(words: &mut Vec<u32>, ia: &TrailInteractionWire)
    ensures
        final(words)@ == old(words)@ + seq![
            ia.attraction_bits,
            ia.addition_bits,
            ia.conversion_enabled,
            ia.conversion_threshold_bits,
            ia.conversion,
        ],
{
    words.push(ia.attraction_bits);
    words.push(ia.addition_bits);
    words.push(ia.conversion_enabled);
    words.push(ia.conversion_threshold_bits);
    words.push(ia.conversion);
    proof {
        assert(words@ =~= old(words)@ + seq![
            ia.attraction_bits,
            ia.addition_bits,
            ia.conversion_enabled,
            ia.conversion_threshold_bits,
            ia.conversion,
        ]);
    }
}

/// The whole per-species stats buffer: the species' records in species
/// order, 112 bytes each.
pub fn bytes_from_agent_stats(stats: &[AgentStatsWire; crate::NUM_AGENT_TYPES]) -> (bytes: Vec<
    u8,
>)
    ensures
        bytes@.len() == 112 * crate::NUM_AGENT_TYPES,
        forall|s: int, i: int, k: int|
            0 <= s < crate::NUM_AGENT_TYPES && 0 <= i < 28 && 0 <= k < 4 ==> bytes@[112 * s + 4
                * i + k] == le_byte(stats[s].wire_words()[i], k),
{
    let mut words: Vec<u32> = Vec::new();
    let mut s: usize = 0;
    while s < crate::NUM_AGENT_TYPES
        invariant
            s <= crate::NUM_AGENT_TYPES,
            words@.len() == 28 * s,
            forall|j: int, i: int|
                0 <= j < s && 0 <= i < 28 ==> words@[28 * j + i] == stats[j].wire_words()[i],
        decreases crate::NUM_AGENT_TYPES - s,
    {
        words.push(stats[s].velocity_bits);
        words.push(stats[s].turn_speed_bits);
        words.push(stats[s].turn_speed_avoidance_bits);
        words.push(stats[s].avoidance_threshold_bits);
        words.push(stats[s].sensor_angle_spacing_bits);
        words.push(stats[s].sensor_offset_bits);
        words.push(stats[s].timeout_bits);
        words.push(stats[s].timeout_conversion);
        push_interaction(&mut words, &stats[s].interaction_channels[0]);
        push_interaction(&mut words, &stats[s].interaction_channels[1]);
        push_interaction(&mut words, &stats[s].interaction_channels[2]);
        push_interaction(&mut words, &stats[s].interaction_channels[3]);
        s = s + 1;
    }
    let bytes = bytes_from_words(&words);
    proof {
        assert forall|s2: int, i: int, k: int|
            0 <= s2 < crate::NUM_AGENT_TYPES && 0 <= i < 28 && 0 <= k < 4 implies bytes@[112 * s2
            + 4 * i + k] == le_byte(stats[s2].wire_words()[i], k) by {
            assert(words@[28 * s2 + i] == stats[s2].wire_words()[i]);
            assert(bytes@[4 * (28 * s2 + i) + k] == le_byte(words@[28 * s2 + i], k));
        }
    }
    bytes
}

} // verus!
