//! The per-pixel compositing kernel.
//!
//! A rendered pixel starts from the background color; each trail channel
//! then applies its operator with the weight `channel value x channel
//! color`.  Components are held in thousandths, saturate at a million
//! wholes either way (the model of the unbounded intermediate range), and
//! the finished pixel is clamped to the unit range of the color target.
//! Division by a zero weight saturates in the direction of the numerator.

use vstd::prelude::*;

verus! {

use crate::NUM_TRAIL_STATS;
use crate::modes::{ColorMode, decoded_color_mode};
use vstd::math::abs;
use crate::intmath::{tdiv, tdiv_exec};
use crate::pixel::PIXEL_MAX;
use crate::stats::{Color, TrailStats};
use crate::trail_map::TrailMap;

/// Saturation bound of intermediate components: a million wholes, in
/// thousandths.
pub const COLOR_SAT_MILLI: i64 = 1_000_000_000;

/// Largest weight a channel can contribute to a component.
pub const MAX_WEIGHT_MILLI: i64 = 2_100_000;

/// A component clamped to the saturation range.
pub open spec fn clamp_sat(c: int) -> int {
    if c > COLOR_SAT_MILLI {
        COLOR_SAT_MILLI as int
    } else if c < -COLOR_SAT_MILLI {
        -COLOR_SAT_MILLI as int
    } else {
        c
    }
}

/// A component clamped to the unit range of the color target.
pub open spec fn clamp_unit(c: int) -> int {
    if c < 0 {
        0
    } else if c > 1000 {
        1000
    } else {
        c
    }
}

/// The weight a channel applies: its raw value scaled by one color
/// component, in thousandths.
pub open spec fn channel_weight(raw: u32, comp: int) -> int {
    tdiv(comp * raw, PIXEL_MAX as int)
}

/// One operator applied to one component.
pub open spec fn apply_op(mode: ColorMode, c: int, w: int) -> int {
    match mode {
        ColorMode::Disabled => c,
        ColorMode::Add => clamp_sat(c + w),
        ColorMode::Subtract => clamp_sat(c - w),
        ColorMode::Multiply => clamp_sat(tdiv(c * w, 1000)),
        ColorMode::Divide => {
            if w == 0 {
                if c > 0 {
                    COLOR_SAT_MILLI as int
                } else if c < 0 {
                    -COLOR_SAT_MILLI as int
                } else {
                    0
                }
            } else {
                clamp_sat(tdiv(c * 1000, w))
            }
        }
    }
}

impl Color {
    /// Component `ci` of the color: red, green, blue, alpha in turn.
    pub open spec fn comp(self, ci: int) -> int {
        if ci == 0 {
            self.r as int
        } else if ci == 1 {
            self.g as int
        } else if ci == 2 {
            self.b as int
        } else {
            self.a as int
        }
    }
}

/// Component `ci` of the pixel `(x, y)` after the first `k` channels have
/// applied their operators to the background.
pub open spec fn composite_upto(
    m: TrailMap,
    stats: [TrailStats; NUM_TRAIL_STATS],
    bg: Color,
    x: int,
    y: int,
    ci: int,
    k: int,
) -> int
    decreases k,
{
    if k <= 0 {
        bg.comp(ci)
    } else {
        apply_op(
            decoded_color_mode(stats[k - 1].color_mode.0),
            composite_upto(m, stats, bg, x, y, ci, k - 1),
            channel_weight(m.channel_at(x, y, k - 1), stats[k - 1].color.comp(ci)),
        )
    }
}

/// Component `ci` of the finished pixel: every channel applied, clamped to
/// the unit range.
pub open spec fn rendered_component(
    m: TrailMap,
    stats: [TrailStats; NUM_TRAIL_STATS],
    bg: Color,
    x: int,
    y: int,
    ci: int,
) -> int {
    clamp_unit(composite_upto(m, stats, bg, x, y, ci, NUM_TRAIL_STATS as int))
}

/// The weight of one channel on one component.
fn channel_weight_exec(raw: u32, comp: i32) -> (r: i64)
    requires
        raw <= 0xFFFF,
        -1_000_000 <= comp <= 1_000_000,
    ensures
        r == channel_weight(raw, comp as int),
        -MAX_WEIGHT_MILLI <= r <= MAX_WEIGHT_MILLI,
{
    proof {
        assert(-65_535_000_000 <= comp * raw <= 65_535_000_000) by (nonlinear_arith)
            requires
                raw <= 0xFFFF,
                -1_000_000 <= comp <= 1_000_000,
        ;
        vstd::arithmetic::div_mod::lemma_div_is_ordered(
            abs(comp * raw) as int,
            65_535_000_000,
            PIXEL_MAX as int,
        );
        vstd::arithmetic::div_mod::lemma_div_is_ordered(0, abs(comp * raw) as int, PIXEL_MAX as int);
    }
    tdiv_exec((comp as i64) * (raw as i64), PIXEL_MAX as i64)
}

/// One operator applied to one component, saturating.
fn apply_op_exec(mode: ColorMode, c: i64, w: i64) -> (r: i64)
    requires
        -COLOR_SAT_MILLI <= c <= COLOR_SAT_MILLI,
        -MAX_WEIGHT_MILLI <= w <= MAX_WEIGHT_MILLI,
    ensures
        r == apply_op(mode, c as int, w as int),
        -COLOR_SAT_MILLI <= r <= COLOR_SAT_MILLI,
{
    match mode {
        ColorMode::Disabled => c,
        ColorMode::Add => clamp_sat_exec(c + w),
        ColorMode::Subtract => clamp_sat_exec(c - w),
        ColorMode::Multiply => {
            proof {
                assert(-0x4000_0000_0000_0000 <= c * w <= 0x4000_0000_0000_0000)
                    by (nonlinear_arith)
                    requires
                        -COLOR_SAT_MILLI <= c <= COLOR_SAT_MILLI,
                        -MAX_WEIGHT_MILLI <= w <= MAX_WEIGHT_MILLI,
                ;
            }
            clamp_sat_exec(tdiv_exec(c * w, 1000))
        }
        ColorMode::Divide => {
            if w == 0 {
                if c > 0 {
                    COLOR_SAT_MILLI
                } else if c < 0 {
                    -COLOR_SAT_MILLI
                } else {
                    0
                }
            } else {
                clamp_sat_exec(tdiv_exec(c * 1000, w))
            }
        }
    }
}

/// A component clamped to the saturation range.
fn clamp_sat_exec(c: i64) -> (r: i64)
    ensures
        r == clamp_sat(c as int),
        -COLOR_SAT_MILLI <= r <= COLOR_SAT_MILLI,
{
    if c > COLOR_SAT_MILLI {
        COLOR_SAT_MILLI
    } else if c < -COLOR_SAT_MILLI {
        -COLOR_SAT_MILLI
    } else {
        c
    }
}

/// A component clamped to the unit range.
fn clamp_unit_exec(c: i64) -> (r: i64)
    ensures
        r == clamp_unit(c as int),
        0 <= r <= 1000,
{
    if c < 0 {
        0
    } else if c > 1000 {
        1000
    } else {
        c
    }
}

/// The finished color of the map pixel `(x, y)`.
pub fn render_pixel(
    m: &TrailMap,
    stats: &[TrailStats; NUM_TRAIL_STATS],
    bg: &Color,
    x: u32,
    y: u32,
) -> (out: Color)
    requires
        m.wf(),
        0 <= x < m.width,
        0 <= y < m.height,
        forall|k: int| 0 <= k < NUM_TRAIL_STATS ==> #[trigger] stats[k].wf(),
        bg.wf(),
    ensures
        out.r == rendered_component(*m, *stats, *bg, x as int, y as int, 0),
        out.g == rendered_component(*m, *stats, *bg, x as int, y as int, 1),
        out.b == rendered_component(*m, *stats, *bg, x as int, y as int, 2),
        out.a == rendered_component(*m, *stats, *bg, x as int, y as int, 3),
        out.wf(),
{
    let mut cr: i64 = bg.r as i64;
    let mut cg: i64 = bg.g as i64;
    let mut cb: i64 = bg.b as i64;
    let mut ca: i64 = bg.a as i64;
    let mut k: usize = 0;
    while k < NUM_TRAIL_STATS
        invariant
            m.wf(),
            0 <= x < m.width,
            0 <= y < m.height,
            forall|k2: int| 0 <= k2 < NUM_TRAIL_STATS ==> #[trigger] stats[k2].wf(),
            bg.wf(),
            k <= NUM_TRAIL_STATS,
            -COLOR_SAT_MILLI <= cr <= COLOR_SAT_MILLI,
            -COLOR_SAT_MILLI <= cg <= COLOR_SAT_MILLI,
            -COLOR_SAT_MILLI <= cb <= COLOR_SAT_MILLI,
            -COLOR_SAT_MILLI <= ca <= COLOR_SAT_MILLI,
            cr == composite_upto(*m, *stats, *bg, x as int, y as int, 0, k as int),
            cg == composite_upto(*m, *stats, *bg, x as int, y as int, 1, k as int),
            cb == composite_upto(*m, *stats, *bg, x as int, y as int, 2, k as int),
            ca == composite_upto(*m, *stats, *bg, x as int, y as int, 3, k as int),
        decreases NUM_TRAIL_STATS - k,
    {
        proof {
            assert(stats[k as int].wf());
        }
        let mode = stats[k].color_mode.decode();
        let raw = m.get_channel(x, y, k);
        cr = apply_op_exec(mode, cr, channel_weight_exec(raw, stats[k].color.r));
        cg = apply_op_exec(mode, cg, channel_weight_exec(raw, stats[k].color.g));
        cb = apply_op_exec(mode, cb, channel_weight_exec(raw, stats[k].color.b));
        ca = apply_op_exec(mode, ca, channel_weight_exec(raw, stats[k].color.a));
        k = k + 1;
    }
    Color {
        r: clamp_unit_exec(cr) as i32,
        g: clamp_unit_exec(cg) as i32,
        b: clamp_unit_exec(cb) as i32,
        a: clamp_unit_exec(ca) as i32,
    }
}

/// The color of one output fragment: the composited map pixel, or plain
/// white where the fragment lies outside the map.
pub fn render_fragment(
    m: &TrailMap,
    stats: &[TrailStats; NUM_TRAIL_STATS],
    bg: &Color,
    x: i64,
    y: i64,
) -> (out: Color)
    requires
        m.wf(),
        forall|k: int| 0 <= k < NUM_TRAIL_STATS ==> #[trigger] stats[k].wf(),
        bg.wf(),
    ensures
        (if 0 <= x < m.width && 0 <= y < m.height {
            &&& out.r == rendered_component(*m, *stats, *bg, x as int, y as int, 0)
            &&& out.g == rendered_component(*m, *stats, *bg, x as int, y as int, 1)
            &&& out.b == rendered_component(*m, *stats, *bg, x as int, y as int, 2)
            &&& out.a == rendered_component(*m, *stats, *bg, x as int, y as int, 3)
        } else {
            out == (Color { r: 1000, g: 1000, b: 1000, a: 1000 })
        }),
        out.wf(),
{
    if 0 <= x && x < m.width as i64 && 0 <= y && y < m.height as i64 {
        render_pixel(m, stats, bg, x as u32, y as u32)
    } else {
        Color { r: 1000, g: 1000, b: 1000, a: 1000 }
    }
}


/// Where the full-screen triangle puts a vertex, in thousandths of a
/// clip-space unit: the vertex index unfolds to a corner of the triangle
/// `(-1, -1)`, `(3, -1)`, `(-1, 3)` that covers the whole screen.
pub open spec fn fullscreen_vertex_spec(index: u32) -> (int, int) {
    (2000 * ((index << 1u32) & 2) - 1000, 2000 * (index & 2) - 1000)
}

/// One vertex of the full-screen triangle, in thousandths of a
/// clip-space unit.
pub fn fullscreen_vertex(index: u32) -> (r: (i64, i64))
    ensures
        (r.0 as int, r.1 as int) == fullscreen_vertex_spec(index),
        -1000 <= r.0 <= 3000,
        -1000 <= r.1 <= 3000,
{
    proof {
        assert((index << 1u32) & 2 <= 2 && index & 2 <= 2) by (bit_vector);
    }
    let ux: u32 = (index << 1) & 2;
    let uy: u32 = index & 2;
    (2000 * (ux as i64) - 1000, 2000 * (uy as i64) - 1000)
}

} // verus!
