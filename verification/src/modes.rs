//! Click and color modes, and their `u32` wire encodings.
//!
//! Both enums cross the host/device boundary as single `u32` words, so the
//! encodings are pinned down bit-exactly: a click mode is `0` (disabled),
//! `1` (show menu), `2` (reset all trails), `256 + k` (paint channel `k`) or
//! `512 + k` (reset channel `k`); a color mode is `0..=3` for the four
//! arithmetic operators and anything else for disabled.

use vstd::prelude::*;

verus! {

/// What a mouse click does to the trail map (or to the menu).
#[derive(Copy, Clone, PartialEq, Eq, Structural, Debug)]
pub enum ClickMode {
    Disabled,
    ShowMenu,
    PaintTrail(u32),
    ResetTrail(u32),
    ResetAllTrails,
}

/// A click mode as the single word handed to the brush kernel.
#[derive(Copy, Clone, PartialEq, Eq, Structural, Debug)]
pub struct ClickModeEncoded(pub u32);

impl ClickMode {
    /// True when any channel index carried by the mode fits the 256-wide
    /// band that the wire encoding reserves for it.
    pub open spec fn wire_encodable(self) -> bool {
        match self {
            ClickMode::PaintTrail(k) => k < 256,
            ClickMode::ResetTrail(k) => k < 256,
            _ => true,
        }
    }

    /// The wire word for this mode.
    pub open spec fn encoding(self) -> int {
        match self {
            ClickMode::Disabled => 0,
            ClickMode::ShowMenu => 1,
            ClickMode::PaintTrail(k) => 256 + k,
            ClickMode::ResetTrail(k) => 512 + k,
            ClickMode::ResetAllTrails => 2,
        }
    }

    pub fn encode(self) -> (r: ClickModeEncoded)
        requires
            self.wire_encodable(),
        ensures
            r.0 == self.encoding(),
    {
        let number: u32 = match self {
            ClickMode::Disabled => 0,
            ClickMode::ShowMenu => 1,
            ClickMode::PaintTrail(trail_index) => 256 + trail_index,
            ClickMode::ResetTrail(trail_index) => 512 + trail_index,
            ClickMode::ResetAllTrails => 2,
        };
        ClickModeEncoded(number)
    }
}

/// The click mode a wire word stands for.  Words outside every assigned
/// range fall back to `Disabled`.
pub open spec fn decoded_click_mode(v: u32) -> ClickMode {
    if v == 0 {
        ClickMode::Disabled
    } else if v == 1 {
        ClickMode::ShowMenu
    } else if v == 2 {
        ClickMode::ResetAllTrails
    } else if 256 <= v <= 511 {
        ClickMode::PaintTrail((v - 256) as u32)
    } else if 512 <= v <= 767 {
        ClickMode::ResetTrail((v - 512) as u32)
    } else {
        ClickMode::Disabled
    }
}

impl ClickModeEncoded {
    pub fn decode(self) -> (r: ClickMode)
        ensures
            r == decoded_click_mode(self.0),
    {
        match self.0 {
            0 => ClickMode::Disabled,
            1 => ClickMode::ShowMenu,
            2 => ClickMode::ResetAllTrails,
            trail_index if 256 <= trail_index && trail_index <= 511 => {
                ClickMode::PaintTrail(trail_index - 256)
            }
            trail_index if 512 <= trail_index && trail_index <= 767 => {
                ClickMode::ResetTrail(trail_index - 512)
            }
            _ => ClickMode::Disabled,
        }
    }
}

/// Encoding then decoding returns every mode unchanged, except that
/// `Disabled` is the fallback image of all unassigned words.
pub proof fn lemma_click_mode_encode_decode(m: ClickMode)
    requires
        !(m is Disabled),
        m.wire_encodable(),
    ensures
        decoded_click_mode(m.encoding() as u32) == m,
{
}

/// Decoding then encoding returns every wire word unchanged, as long as the
/// word decodes to something other than `Disabled`.
pub proof fn lemma_click_mode_decode_encode(v: u32)
    requires
        !(decoded_click_mode(v) is Disabled),
    ensures
        decoded_click_mode(v).wire_encodable(),
        decoded_click_mode(v).encoding() == v,
{
}

/// How a trail channel contributes to the rendered frame.
#[derive(Copy, Clone, PartialEq, Eq, Structural, Debug)]
pub enum ColorMode {
    Disabled,
    Add,
    Subtract,
    Multiply,
    Divide,
}

/// A color mode as the single word held in the per-channel stats buffer.
#[derive(Copy, Clone, PartialEq, Eq, Structural, Debug)]
pub struct ColorModeEncoded(pub u32);

impl ColorMode {
    /// The wire word for this mode; `Disabled` is sent as `0xFF`.
    pub open spec fn encoding(self) -> u32 {
        match self {
            ColorMode::Add => 0,
            ColorMode::Subtract => 1,
            ColorMode::Multiply => 2,
            ColorMode::Divide => 3,
            ColorMode::Disabled => 0xFF,
        }
    }

    pub fn encode(self) -> (r: ColorModeEncoded)
        ensures
            r.0 == self.encoding(),
    {
        let number: u32 = match self {
            ColorMode::Add => 0,
            ColorMode::Subtract => 1,
            ColorMode::Multiply => 2,
            ColorMode::Divide => 3,
            _ => 0xFF,
        };
        ColorModeEncoded(number)
    }
}

/// The color mode a wire word stands for.  Words above `3` fall back to
/// `Disabled`.
pub open spec fn decoded_color_mode(v: u32) -> ColorMode {
    if v == 0 {
        ColorMode::Add
    } else if v == 1 {
        ColorMode::Subtract
    } else if v == 2 {
        ColorMode::Multiply
    } else if v == 3 {
        ColorMode::Divide
    } else {
        ColorMode::Disabled
    }
}

impl ColorModeEncoded {
    pub fn decode(self) -> (r: ColorMode)
        ensures
            r == decoded_color_mode(self.0),
    {
        match self.0 {
            0 => ColorMode::Add,
            1 => ColorMode::Subtract,
            2 => ColorMode::Multiply,
            3 => ColorMode::Divide,
            _ => ColorMode::Disabled,
        }
    }
}

/// Encoding then decoding returns every color mode except `Disabled`
/// unchanged.
pub proof fn lemma_color_mode_encode_decode(m: ColorMode)
    requires
        !(m is Disabled),
    ensures
        decoded_color_mode(m.encoding()) == m,
{
}

/// Decoding then encoding returns every wire word in `0..=3` unchanged, and
/// those are exactly the words that do not decode to `Disabled`.
pub proof fn lemma_color_mode_decode_encode(v: u32)
    requires
        !(decoded_color_mode(v) is Disabled),
    ensures
        decoded_color_mode(v).encoding() == v,
{
}

impl ClickMode {
    /// The menu label of each mode.
    pub open spec fn description_spec(self) -> Seq<char> {
        match self {
            ClickMode::Disabled => "Disabled"@,
            ClickMode::ShowMenu => "Show menu"@,
            ClickMode::PaintTrail(_) => "Paint trail"@,
            ClickMode::ResetTrail(_) => "Reset trail"@,
            ClickMode::ResetAllTrails => "Reset all trails"@,
        }
    }

    pub fn description(&self) -> (r: &'static str)
        ensures
            r@ == self.description_spec(),
    {
        match self {
            ClickMode::Disabled => "Disabled",
            ClickMode::ShowMenu => "Show menu",
            ClickMode::PaintTrail(_) => "Paint trail",
            ClickMode::ResetTrail(_) => "Reset trail",
            ClickMode::ResetAllTrails => "Reset all trails",
        }
    }
}

impl ColorMode {
    /// The menu label of each mode.
    pub open spec fn description_spec(self) -> Seq<char> {
        match self {
            ColorMode::Disabled => "Disabled"@,
            ColorMode::Add => "Add"@,
            ColorMode::Subtract => "Subtract"@,
            ColorMode::Multiply => "Multiply"@,
            ColorMode::Divide => "Divide"@,
        }
    }

    pub fn description(&self) -> (r: &'static str)
        ensures
            r@ == self.description_spec(),
    {
        match self {
            ColorMode::Disabled => "Disabled",
            ColorMode::Add => "Add",
            ColorMode::Subtract => "Subtract",
            ColorMode::Multiply => "Multiply",
            ColorMode::Divide => "Divide",
        }
    }
}

} // verus!
