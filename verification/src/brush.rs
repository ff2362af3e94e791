//! The mouse-driven brush kernel.
//!
//! While the mouse is down, every cell within the brush radius of the
//! pointer is acted on according to the click mode: painting sets one
//! channel to full strength, resetting clears one channel, and a full
//! reset clears every channel.  Cells outside the radius, and all cells
//! while the mouse is up, keep their exact bits.

use vstd::prelude::*;

verus! {

use crate::NUM_TRAIL_STATS;
use crate::modes::{ClickMode, ClickModeEncoded, decoded_click_mode};
use crate::pixel::PIXEL_MAX;
use crate::trail_map::TrailMap;

/// The pointer state one brush pass acts on, in milli-pixel map
/// coordinates.
#[derive(Copy, Clone, PartialEq, Eq, Structural, Debug)]
pub struct BrushInput {
    pub mouse_down: bool,
    pub mouse_x_milli: i64,
    pub mouse_y_milli: i64,
    pub brush_size_milli: u32,
    pub click_mode: ClickModeEncoded,
}

impl BrushInput {
    /// Coordinates and radius stay far inside the range the squared
    /// distance test can hold.
    pub open spec fn wf(self) -> bool {
        &&& -0x100_0000_0000 <= self.mouse_x_milli <= 0x100_0000_0000
        &&& -0x100_0000_0000 <= self.mouse_y_milli <= 0x100_0000_0000
        &&& self.brush_size_milli <= 10_000_000
    }
}

/// Whether the cell `(x, y)` lies strictly within `brush` milli-pixels of
/// the pointer, by squared distance.
pub open spec fn within_range(x: int, y: int, mx: int, my: int, brush: int) -> bool {
    (x * 1000 - mx) * (x * 1000 - mx) + (y * 1000 - my) * (y * 1000 - my) < brush * brush
}

/// The value channel `c` of cell `(x, y)` holds after one brush pass over
/// the map `m0`.
pub open spec fn brushed_value(m0: TrailMap, b: BrushInput, x: int, y: int, c: int) -> int {
    if b.mouse_down && within_range(
        x,
        y,
        b.mouse_x_milli as int,
        b.mouse_y_milli as int,
        b.brush_size_milli as int,
    ) {
        match decoded_click_mode(b.click_mode.0) {
            ClickMode::PaintTrail(k) => {
                if c == k && k < NUM_TRAIL_STATS {
                    PIXEL_MAX as int
                } else {
                    m0.channel_at(x, y, c) as int
                }
            }
            ClickMode::ResetTrail(k) => {
                if c == k && k < NUM_TRAIL_STATS {
                    0
                } else {
                    m0.channel_at(x, y, c) as int
                }
            }
            ClickMode::ResetAllTrails => 0,
            _ => m0.channel_at(x, y, c) as int,
        }
    } else {
        m0.channel_at(x, y, c) as int
    }
}

/// The squared-distance test on one cell.
pub fn cell_within_range(x: u32, y: u32, b: &BrushInput) -> (r: bool)
    requires
        b.wf(),
        x <= 0x3FFF_FFFF,
        y <= 0x3FFF_FFFF,
    ensures
        r == within_range(
            x as int,
            y as int,
            b.mouse_x_milli as int,
            b.mouse_y_milli as int,
            b.brush_size_milli as int,
        ),
{
    let dx: i128 = (x as i128) * 1000 - b.mouse_x_milli as i128;
    let dy: i128 = (y as i128) * 1000 - b.mouse_y_milli as i128;
    let brush: i128 = b.brush_size_milli as i128;
    proof {
        assert(dx * dx <= 0x4_0000_0000_0000_0000_0000 && 0 <= dx * dx) by (nonlinear_arith)
            requires
                -0x200_0000_0000 <= dx <= 0x200_0000_0000,
        ;
        assert(dy * dy <= 0x4_0000_0000_0000_0000_0000 && 0 <= dy * dy) by (nonlinear_arith)
            requires
                -0x200_0000_0000 <= dy <= 0x200_0000_0000,
        ;
        assert(brush * brush <= 0x4_0000_0000_0000_0000_0000 && 0 <= brush * brush)
            by (nonlinear_arith)
            requires
                0 <= brush <= 0x200_0000_0000,
        ;
    }
    dx * dx + dy * dy < brush * brush
}

/// Applies the brush to one cell, in place.
pub fn brush_cell(map: &mut TrailMap, b: &BrushInput, x: u32, y: u32)
    requires
        old(map).wf(),
        0 <= x < old(map).width,
        0 <= y < old(map).height,
        b.wf(),
    ensures
        final(map).wf(),
        final(map).width == old(map).width,
        final(map).height == old(map).height,
        forall|k: int|
            0 <= k < NUM_TRAIL_STATS ==> final(map).channel_at(x as int, y as int, k)
                == brushed_value(*old(map), *b, x as int, y as int, k),
        forall|i: int, j: int, k: int|
            final(map).in_bounds(i, j, k) && (i, j) != (x as int, y as int)
                ==> final(map).channel_at(i, j, k) == old(map).channel_at(i, j, k),
{
    proof {
        let w = old(map).width;
        let h = old(map).height;
        assert(w <= 0x3FFF_FFFF && h <= 0x3FFF_FFFF) by (nonlinear_arith)
            requires
                w * h <= 0x0FFF_FFFFu64,
                1 <= w,
                1 <= h,
        ;
    }
    if !b.mouse_down {
        return ;
    }
    if !cell_within_range(x, y, b) {
        return ;
    }
    let mode = b.click_mode.decode();
    match mode {
        ClickMode::Disabled => {}
        ClickMode::ShowMenu => {}
        ClickMode::PaintTrail(trail_index) => {
            if (trail_index as usize) < NUM_TRAIL_STATS {
                map.set_channel(x, y, trail_index as usize, PIXEL_MAX);
            }
        }
        ClickMode::ResetTrail(trail_index) => {
            if (trail_index as usize) < NUM_TRAIL_STATS {
                map.set_channel(x, y, trail_index as usize, 0);
            }
        }
        ClickMode::ResetAllTrails => {
            let mut i: usize = 0;
            while i < NUM_TRAIL_STATS
                invariant
                    map.wf(),
                    map.width == old(map).width,
                    map.height == old(map).height,
                    x < map.width,
                    y < map.height,
                    i <= NUM_TRAIL_STATS,
                    forall|k: int|
                        0 <= k < i ==> map.channel_at(x as int, y as int, k) == 0,
                    forall|k: int|
                        i <= k < NUM_TRAIL_STATS ==> map.channel_at(x as int, y as int, k)
                            == old(map).channel_at(x as int, y as int, k),
                    forall|i2: int, j2: int, k2: int|
                        map.in_bounds(i2, j2, k2) && (i2, j2) != (x as int, y as int)
                            ==> map.channel_at(i2, j2, k2) == old(map).channel_at(i2, j2, k2),
                decreases NUM_TRAIL_STATS - i,
            {
                map.set_channel(x, y, i, 0);
                i = i + 1;
            }
        }
    }
}

/// One brush pass over the whole map.
pub fn brush_pass(map: &mut TrailMap, b: &BrushInput)
    requires
        old(map).wf(),
        b.wf(),
    ensures
        final(map).wf(),
        final(map).width == old(map).width,
        final(map).height == old(map).height,
        forall|i: int, j: int, k: int|
            final(map).in_bounds(i, j, k) ==> final(map).channel_at(i, j, k) == brushed_value(
                *old(map),
                *b,
                i,
                j,
                k,
            ),
{
    let h = map.height;
    let w = map.width;
    let mut y: u32 = 0;
    while y < h
        invariant
            map.wf(),
            map.width == w,
            map.height == h,
            b.wf(),
            y <= h,
            forall|i: int, j: int, k: int|
                map.in_bounds(i, j, k) && j < y ==> map.channel_at(i, j, k) == brushed_value(
                    *old(map),
                    *b,
                    i,
                    j,
                    k,
                ),
            forall|i: int, j: int, k: int|
                map.in_bounds(i, j, k) && j >= y ==> map.channel_at(i, j, k) == old(
                    map,
                ).channel_at(i, j, k),
        decreases h - y,
    {
        let mut x: u32 = 0;
        while x < w
            invariant
                map.wf(),
                map.width == w,
                map.height == h,
                b.wf(),
                y < h,
                x <= w,
                forall|i: int, j: int, k: int|
                    map.in_bounds(i, j, k) && (j < y || (j == y && i < x)) ==> map.channel_at(
                        i,
                        j,
                        k,
                    ) == brushed_value(*old(map), *b, i, j, k),
                forall|i: int, j: int, k: int|
                    map.in_bounds(i, j, k) && (j > y || (j == y && i >= x)) ==> map.channel_at(
                        i,
                        j,
                        k,
                    ) == old(map).channel_at(i, j, k),
            decreases w - x,
        {
            brush_cell(map, b, x, y);
            x = x + 1;
        }
        y = y + 1;
    }
}

/// Painting acts exactly where it should: with the mouse down, a paint
/// mode on a channel the map carries, and a cell within the brush radius,
/// that channel is written to full strength.
pub proof fn lemma_brush_paints(m0: TrailMap, b: BrushInput, x: int, y: int, k: u32)
    requires
        b.mouse_down,
        decoded_click_mode(b.click_mode.0) == ClickMode::PaintTrail(k),
        k < NUM_TRAIL_STATS,
        within_range(
            x,
            y,
            b.mouse_x_milli as int,
            b.mouse_y_milli as int,
            b.brush_size_milli as int,
        ),
    ensures
        brushed_value(m0, b, x, y, k as int) == PIXEL_MAX,
{
}

} // verus!
