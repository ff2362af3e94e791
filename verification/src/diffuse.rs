//! The per-cell blur-and-evaporate kernel.
//!
//! Each tick, every channel of every cell moves part of the way toward the
//! mean of its 3x3 neighborhood (missing neighbors count as zero) and then
//! loses a fixed fraction of full strength, floored at zero.  The pass
//! reads a snapshot of the map and writes a fresh output map, so no cell
//! ever reads a neighbor that the same pass already rewrote.

use vstd::prelude::*;

verus! {

use crate::NUM_TRAIL_STATS;
use crate::pixel::PIXEL_MAX;
use crate::stats::{MAX_TIME_STEP_US, TrailStats};
use crate::trail_map::TrailMap;

/// The channel value at `(x, y)`, or zero when the coordinate leaves the
/// map.
pub open spec fn sample_or_zero(m: TrailMap, x: int, y: int, c: int) -> int {
    if 0 <= x < m.width && 0 <= y < m.height {
        m.channel_at(x, y, c) as int
    } else {
        0
    }
}

/// The sum of a channel over the 3x3 neighborhood of `(x, y)`.
pub open spec fn blur_sum(m: TrailMap, x: int, y: int, c: int) -> int {
    sample_or_zero(m, x - 1, y - 1, c) + sample_or_zero(m, x, y - 1, c) + sample_or_zero(
        m,
        x + 1,
        y - 1,
        c,
    ) + sample_or_zero(m, x - 1, y, c) + sample_or_zero(m, x, y, c) + sample_or_zero(
        m,
        x + 1,
        y,
        c,
    ) + sample_or_zero(m, x - 1, y + 1, c) + sample_or_zero(m, x, y + 1, c) + sample_or_zero(
        m,
        x + 1,
        y + 1,
        c,
    )
}

/// How far toward the blurred value one tick moves, in thousandths,
/// saturating at the blurred value itself.
pub open spec fn diffusion_t_milli(speed_milli: u32, dt_us: u64) -> int {
    let t = speed_milli * dt_us / 1_000_000;
    if t > 1000 {
        1000
    } else {
        t
    }
}

/// The raw channel amount one tick evaporates.
pub open spec fn evaporation_raw(speed_milli: u32, dt_us: u64) -> int {
    speed_milli * dt_us / 1_000_000 * PIXEL_MAX / 1000
}

/// Linear interpolation from `v` toward `b` by `t` thousandths.
pub open spec fn lerp_raw(v: int, b: int, t: int) -> int {
    if b >= v {
        v + (b - v) * t / 1000
    } else {
        v - (v - b) * t / 1000
    }
}

/// The channel value the diffuse pass writes for one cell: the cell lerped
/// toward its 3x3 mean, then evaporated, floored at zero.
pub open spec fn diffused_value(
    m: TrailMap,
    stats: TrailStats,
    x: int,
    y: int,
    c: int,
    dt_us: u64,
) -> int {
    let v = m.channel_at(x, y, c) as int;
    let b = blur_sum(m, x, y, c) / 9;
    let lerped = lerp_raw(v, b, diffusion_t_milli(stats.diffusion_speed_milli, dt_us));
    let evap = evaporation_raw(stats.evaporation_speed_milli, dt_us);
    if lerped - evap >= 0 {
        lerped - evap
    } else {
        0
    }
}

/// Scaling a nonnegative amount by at most a whole, in thousandths, never
/// exceeds the amount.
proof fn lemma_scale_le(d: int, t: int)
    requires
        0 <= d,
        0 <= t <= 1000,
    ensures
        0 <= d * t / 1000 <= d,
{
    assert(0 <= d * t <= d * 1000) by (nonlinear_arith)
        requires
            0 <= d,
            0 <= t <= 1000,
    ;
    vstd::arithmetic::div_mod::lemma_div_is_ordered(0, d * t, 1000);
    vstd::arithmetic::div_mod::lemma_div_is_ordered(d * t, d * 1000, 1000);
    vstd::arithmetic::div_mod::lemma_div_multiples_vanish(d, 1000);
}

/// Reads a channel, treating coordinates outside the map as zero.
fn sample_at(m: &TrailMap, x: i64, y: i64, c: usize) -> (r: u32)
    requires
        m.wf(),
        0 <= c < NUM_TRAIL_STATS,
    ensures
        r == sample_or_zero(*m, x as int, y as int, c as int),
        r <= 0xFFFF,
{
    if 0 <= x && x < m.width as i64 && 0 <= y && y < m.height as i64 {
        m.get_channel(x as u32, y as u32, c)
    } else {
        0
    }
}

/// One channel of one cell after this tick's diffusion and evaporation.
pub fn diffuse_cell(m: &TrailMap, stats: &TrailStats, x: u32, y: u32, c: usize, dt_us: u64) -> (r:
    u32)
    requires
        m.wf(),
        m.in_bounds(x as int, y as int, c as int),
        stats.wf(),
        dt_us <= MAX_TIME_STEP_US,
    ensures
        r == diffused_value(*m, *stats, x as int, y as int, c as int, dt_us),
        r <= 0xFFFF,
{
    let xi = x as i64;
    let yi = y as i64;
    let mut sum: u64 = 0;
    sum = sum + sample_at(m, xi - 1, yi - 1, c) as u64;
    sum = sum + sample_at(m, xi, yi - 1, c) as u64;
    sum = sum + sample_at(m, xi + 1, yi - 1, c) as u64;
    sum = sum + sample_at(m, xi - 1, yi, c) as u64;
    sum = sum + sample_at(m, xi, yi, c) as u64;
    sum = sum + sample_at(m, xi + 1, yi, c) as u64;
    sum = sum + sample_at(m, xi - 1, yi + 1, c) as u64;
    sum = sum + sample_at(m, xi, yi + 1, c) as u64;
    sum = sum + sample_at(m, xi + 1, yi + 1, c) as u64;
    let b: u64 = sum / 9;
    let v: u32 = m.get_channel(x, y, c);
    proof {
        assert(stats.diffusion_speed_milli * dt_us <= 100_000_000_000_000) by (nonlinear_arith)
            requires
                stats.diffusion_speed_milli <= 10_000_000,
                dt_us <= 10_000_000,
        ;
        assert(stats.evaporation_speed_milli * dt_us <= 100_000_000_000_000) by (nonlinear_arith)
            requires
                stats.evaporation_speed_milli <= 10_000_000,
                dt_us <= 10_000_000,
        ;
    }
    let t_raw: u64 = (stats.diffusion_speed_milli as u64) * dt_us / 1_000_000;
    let t: u64 = if t_raw > 1000 {
        1000
    } else {
        t_raw
    };
    proof {
        vstd::arithmetic::div_mod::lemma_div_is_ordered(0, sum as int, 9);
        vstd::arithmetic::div_mod::lemma_div_is_ordered(sum as int, (9 * 0xFFFF) as int, 9);
        vstd::arithmetic::div_mod::lemma_div_multiples_vanish(0xFFFF, 9);
        if b >= v {
            lemma_scale_le(b - v, t as int);
        } else {
            lemma_scale_le(v - b, t as int);
        }
    }
    let lerped: i64 = if b >= v as u64 {
        v as i64 + ((b as i64 - v as i64) * t as i64) / 1000
    } else {
        v as i64 - ((v as i64 - b as i64) * t as i64) / 1000
    };
    let evap: i64 = ((stats.evaporation_speed_milli as u64) * dt_us / 1_000_000 * (PIXEL_MAX
        as u64) / 1000) as i64;
    let out: i64 = lerped - evap;
    if out >= 0 {
        out as u32
    } else {
        0
    }
}

/// A fresh map holding this tick's diffused value of every channel of
/// every cell of `input`.
pub fn diffuse_pass(
    input: &TrailMap,
    stats: &[TrailStats; NUM_TRAIL_STATS],
    dt_us: u64,
) -> (out: TrailMap)
    requires
        input.wf(),
        forall|k: int| 0 <= k < NUM_TRAIL_STATS ==> #[trigger] stats[k].wf(),
        dt_us <= MAX_TIME_STEP_US,
    ensures
        out.wf(),
        out.width == input.width,
        out.height == input.height,
        forall|i: int, j: int, k: int|
            out.in_bounds(i, j, k) ==> out.channel_at(i, j, k) == diffused_value(
                *input,
                stats[k],
                i,
                j,
                k,
                dt_us,
            ),
{
    let mut out = TrailMap::new(input.width, input.height);
    let mut y: u32 = 0;
    while y < input.height
        invariant
            input.wf(),
            forall|k: int| 0 <= k < NUM_TRAIL_STATS ==> #[trigger] stats[k].wf(),
            dt_us <= MAX_TIME_STEP_US,
            out.wf(),
            out.width == input.width,
            out.height == input.height,
            y <= input.height,
            forall|i: int, j: int, k: int|
                out.in_bounds(i, j, k) && j < y ==> out.channel_at(i, j, k) == diffused_value(
                    *input,
                    stats[k],
                    i,
                    j,
                    k,
                    dt_us,
                ),
        decreases input.height - y,
    {
        let mut x: u32 = 0;
        while x < input.width
            invariant
                input.wf(),
                forall|k: int| 0 <= k < NUM_TRAIL_STATS ==> #[trigger] stats[k].wf(),
                dt_us <= MAX_TIME_STEP_US,
                out.wf(),
                out.width == input.width,
                out.height == input.height,
                y < input.height,
                x <= input.width,
                forall|i: int, j: int, k: int|
                    out.in_bounds(i, j, k) && (j < y || (j == y && i < x)) ==> out.channel_at(
                        i,
                        j,
                        k,
                    ) == diffused_value(*input, stats[k], i, j, k, dt_us),
            decreases input.width - x,
        {
            let mut c: usize = 0;
            while c < NUM_TRAIL_STATS
                invariant
                    input.wf(),
                    forall|k: int| 0 <= k < NUM_TRAIL_STATS ==> #[trigger] stats[k].wf(),
                    dt_us <= MAX_TIME_STEP_US,
                    out.wf(),
                    out.width == input.width,
                    out.height == input.height,
                    y < input.height,
                    x < input.width,
                    c <= NUM_TRAIL_STATS,
                    forall|i: int, j: int, k: int|
                        out.in_bounds(i, j, k) && (j < y || (j == y && i < x) || (j == y && i == x
                            && k < c)) ==> out.channel_at(i, j, k) == diffused_value(
                            *input,
                            stats[k],
                            i,
                            j,
                            k,
                            dt_us,
                        ),
                decreases NUM_TRAIL_STATS - c,
            {
                let value = diffuse_cell(input, &stats[c], x, y, c, dt_us);
                out.set_channel(x, y, c, value);
                c = c + 1;
            }
            x = x + 1;
        }
        y = y + 1;
    }
    out
}

/// With diffusion switched off, one tick is pure evaporation: the new value
/// is the old one less the evaporated amount, floored at zero.
pub proof fn lemma_evaporation_only(m: TrailMap, stats: TrailStats, x: int, y: int, c: int, dt_us: u64)
    requires
        m.wf(),
        m.in_bounds(x, y, c),
        stats.wf(),
        dt_us <= MAX_TIME_STEP_US,
        stats.diffusion_speed_milli == 0,
    ensures
        diffused_value(m, stats, x, y, c, dt_us) == if m.channel_at(x, y, c) >= evaporation_raw(
            stats.evaporation_speed_milli,
            dt_us,
        ) {
            m.channel_at(x, y, c) - evaporation_raw(stats.evaporation_speed_milli, dt_us)
        } else {
            0
        },
{
    let v = m.channel_at(x, y, c) as int;
    let b = blur_sum(m, x, y, c) / 9;
    vstd::arithmetic::div_mod::lemma_div_multiples_vanish(0, 1_000_000);
    assert(diffusion_t_milli(0, dt_us) == 0);
    vstd::arithmetic::div_mod::lemma_div_multiples_vanish(0, 1000);
    assert(lerp_raw(v, b, 0) == v);
}

/// Where the whole 3x3 neighborhood holds one value and evaporation is
/// switched off, one tick leaves the cell exactly unchanged.
pub proof fn lemma_diffusion_stationary(
    m: TrailMap,
    stats: TrailStats,
    x: int,
    y: int,
    c: int,
    dt_us: u64,
    v: u32,
)
    requires
        m.wf(),
        m.in_bounds(x, y, c),
        stats.wf(),
        dt_us <= MAX_TIME_STEP_US,
        stats.evaporation_speed_milli == 0,
        1 <= x < m.width - 1,
        1 <= y < m.height - 1,
        forall|i: int, j: int|
            x - 1 <= i <= x + 1 && y - 1 <= j <= y + 1 ==> m.channel_at(i, j, c) == v,
    ensures
        diffused_value(m, stats, x, y, c, dt_us) == v,
{
    assert(blur_sum(m, x, y, c) == 9 * v);
    vstd::arithmetic::div_mod::lemma_div_multiples_vanish(v as int, 9);
    let t = diffusion_t_milli(stats.diffusion_speed_milli, dt_us);
    vstd::arithmetic::div_mod::lemma_div_multiples_vanish(0, 1000);
    assert(lerp_raw(v as int, v as int, t) == v);
    vstd::arithmetic::div_mod::lemma_div_multiples_vanish(0, 1_000_000);
    assert(evaporation_raw(0, dt_us) == 0);
}

} // verus!
